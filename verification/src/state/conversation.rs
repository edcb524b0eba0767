//! Durable live conversations: admission, observation, closing, and termination.

use vstd::prelude::*;

use crate::contract::control::{
    conflict, state_failure, Conversation, ConversationCloseAdmission,
    ConversationCloseAdmissionView, ConversationEvent, ConversationEventPayload,
    ConversationEventPayloadView, ConversationEventView, ConversationSend, ConversationSendView,
    ConversationSnapshot, ConversationSnapshotView, ConversationStart, ConversationStartAdmission,
    ConversationStartAdmissionView, ConversationStartView, ConversationState, ConversationStopMode,
    ConversationTurn, ConversationTurnAdmission, ConversationTurnAdmissionView,
    ConversationTurnObservation, ConversationTurnObservationView, ConversationTurnView,
    ConversationView, Operation, OperationState, OperationView, OperatorError, OperatorErrorView,
    SessionClaimDisposition, TerminalOutcome, TerminalOutcomeView, TurnState,
};
use crate::contract::identity::{ConversationId, OperationId, SessionId, TurnId};
use crate::identifier::{random_uuid_layout, uuid_text};
use crate::state::conversation_timeline::{
    append, event_after, events_read, highest, highest_sequence, list_after,
};
use crate::state::conversation_turn::{
    following_position, highest_position, last_position, next_position, record_transition,
    resolution, resolve_unfinished, turn_observed,
};
use crate::state::decision::{answer, changed, decision, unchanged, Decided};
use crate::keyed::lookup;
use crate::state::operation::{admitted_operation, identity_free, new_operation};
use crate::state::tables::{
    find_turn, Change, ChangeView, Claim, ConversationRecord, ConversationRecordView,
    OperationRecord, OperationRecordView, Tables, TablesView, TurnRecord, TurnRecordView,
};
use crate::text::{optional, same_optional_text, views};

verus! {

/// The position of the first turn.
pub const FIRST_TURN_POSITION: u64 = 1;

/// The refusal of a conversation that does not exist.
pub open spec fn unknown_conversation(id: ConversationId) -> OperatorErrorView {
    OperatorErrorView::UnknownOperation(uuid_text(id.0.0))
}

/// A conversation as it is admitted.
pub open spec fn opened_conversation(
    id: ConversationId,
    request: ConversationStartView,
    session_id: SessionId,
) -> ConversationView {
    ConversationView {
        conversation_id: id,
        project_id: request.project_id,
        intent: request.intent,
        session_id,
        state: ConversationState::Open,
        close_mode: None,
        terminal_outcome: None,
    }
}

/// A turn as it is admitted.
pub open spec fn queued_turn(
    conversation_id: ConversationId,
    turn_id: TurnId,
    position: u64,
    prompt: Seq<char>,
) -> ConversationTurnView {
    ConversationTurnView {
        conversation_id,
        turn_id,
        position,
        prompt,
        state: TurnState::Queued,
        result: None,
    }
}

/// What admitting a conversation yields, where `fresh` is the identity for a new operation: the
/// conversation or the one-shot operation already admitted for the request; or the absence of its
/// project; or the operation that holds the session; or a new operation that claims the session,
/// with a conversation, its first turn, and the event that queues it.
pub open spec fn start_admission(
    tables: TablesView,
    request: ConversationStartView,
    session_id: SessionId,
    fingerprint: Seq<char>,
    fresh: OperationId,
) -> Result<(ConversationStartAdmissionView, Seq<ChangeView>), OperatorErrorView> {
    match tables.requested(request.request_id) {
        Some(existing) => match lookup(
            tables.conversations,
            ConversationId(existing.operation.operation_id),
        ) {
            Some(record) => if record.turns.len() == 0 {
                Err(state_failure("conversation has no durable first turn"@))
            } else {
                Ok(
                    (
                        ConversationStartAdmissionView::Existing {
                            operation: existing.operation,
                            conversation: record.conversation,
                            first_turn: record.turns[0].turn,
                            fingerprint: existing.fingerprint,
                        },
                        Seq::empty(),
                    ),
                )
            },
            None => Ok(
                (
                    ConversationStartAdmissionView::ExistingOperation {
                        operation: existing.operation,
                        fingerprint: existing.fingerprint,
                    },
                    Seq::empty(),
                ),
            ),
        },
        None => if !tables.projects.contains_key(request.project_id) {
            Ok((ConversationStartAdmissionView::MissingProject, Seq::empty()))
        } else {
            match lookup(tables.claims, session_id) {
                Some(claim) => match tables.operation(claim.operation_id) {
                    Some(operation) => Ok(
                        (ConversationStartAdmissionView::ActiveSession { operation }, Seq::empty()),
                    ),
                    None => Err(state_failure("active session references no operation"@)),
                },
                None => if identity_free(tables, fresh) {
                    let operation = admitted_operation(
                        fresh,
                        request.request_id,
                        request.project_id,
                        request.intent,
                        session_id,
                    );
                    let id = ConversationId(fresh);
                    let conversation = opened_conversation(id, request, session_id);
                    let first_turn = queued_turn(
                        id,
                        request.turn_id,
                        FIRST_TURN_POSITION,
                        request.prompt,
                    );
                    Ok(
                        (
                            ConversationStartAdmissionView::Inserted {
                                operation,
                                conversation,
                                first_turn,
                            },
                            seq![
                                ChangeView::InsertOperation(
                                    OperationRecordView { operation, fingerprint },
                                ),
                                ChangeView::ClaimSession(
                                    Claim { session_id, operation_id: fresh },
                                ),
                                ChangeView::InsertConversation(conversation),
                                ChangeView::InsertTurn(
                                    TurnRecordView { turn: first_turn, fingerprint },
                                ),
                                ChangeView::AppendEvent(
                                    ConversationEventView {
                                        conversation_id: id,
                                        sequence: 1,
                                        payload: ConversationEventPayloadView::TurnQueued {
                                            turn_id: request.turn_id,
                                        },
                                    },
                                ),
                            ],
                        ),
                    )
                } else {
                    Err(state_failure("operation identity is already in use"@))
                },
            }
        },
    }
}

/// The turns without their fingerprints.
pub open spec fn bare_turns(turns: Seq<TurnRecordView>) -> Seq<ConversationTurnView> {
    turns.map_values(|record: TurnRecordView| record.turn)
}

/// What reading a conversation after a cursor yields.
pub open spec fn conversation_read(
    tables: TablesView,
    id: ConversationId,
    cursor: u64,
) -> Result<ConversationSnapshotView, OperatorErrorView> {
    match lookup(tables.conversations, id) {
        None => Err(unknown_conversation(id)),
        Some(record) => match events_read(record.events, cursor) {
            Err(error) => Err(error),
            Ok(events) => Ok(
                ConversationSnapshotView {
                    conversation: record.conversation,
                    turns: bare_turns(record.turns),
                    events,
                },
            ),
        },
    }
}

/// What admitting a further turn yields: the turn already admitted; or the closed conversation; or
/// a new turn at the next position, with the event that queues it.
pub open spec fn turn_admission(
    tables: TablesView,
    request: ConversationSendView,
    fingerprint: Seq<char>,
) -> Result<(ConversationTurnAdmissionView, Seq<ChangeView>), OperatorErrorView> {
    match lookup(tables.conversations, request.conversation_id) {
        None => Ok((ConversationTurnAdmissionView::MissingConversation, Seq::empty())),
        Some(record) => match find_turn(record.turns, request.turn_id) {
            Some(existing) => Ok(
                (
                    ConversationTurnAdmissionView::Existing {
                        turn: existing.turn,
                        fingerprint: existing.fingerprint,
                    },
                    Seq::empty(),
                ),
            ),
            None => if record.conversation.state != ConversationState::Open {
                Ok(
                    (
                        ConversationTurnAdmissionView::Closed { conversation: record.conversation },
                        Seq::empty(),
                    ),
                )
            } else {
                match following_position(record.turns) {
                    Err(error) => Err(error),
                    Ok(position) => {
                        let turn = queued_turn(
                            request.conversation_id,
                            request.turn_id,
                            position,
                            request.prompt,
                        );
                        match event_after(
                            highest_sequence(record.events),
                            request.conversation_id,
                            ConversationEventPayloadView::TurnQueued { turn_id: request.turn_id },
                        ) {
                            Err(error) => Err(error),
                            Ok(event) => Ok(
                                (
                                    ConversationTurnAdmissionView::Inserted(turn),
                                    seq![
                                        ChangeView::InsertTurn(
                                            TurnRecordView { turn, fingerprint },
                                        ),
                                        ChangeView::AppendEvent(event),
                                    ],
                                ),
                            ),
                        }
                    },
                }
            },
        },
    }
}

/// What observing a turn of a live conversation yields: the turn as it is then, and the event that
/// records it, appended to the timeline.
pub open spec fn observation(
    tables: TablesView,
    id: ConversationId,
    turn_id: TurnId,
    state: Option<TurnState>,
    result: Option<Seq<char>>,
    payload: ConversationEventPayloadView,
) -> Result<(ConversationTurnObservationView, Seq<ChangeView>), OperatorErrorView> {
    match lookup(tables.conversations, id) {
        None => Err(unknown_conversation(id)),
        Some(record) => if record.conversation.state.is_terminal() {
            Err(conflict("terminal conversation cannot append a turn observation"@))
        } else {
            match turn_observed(record.turns, turn_id, state, result, payload) {
                Err(error) => Err(error),
                Ok((turn, changes)) => match event_after(
                    highest_sequence(record.events),
                    id,
                    payload,
                ) {
                    Err(error) => Err(error),
                    Ok(event) => Ok(
                        (
                            ConversationTurnObservationView { turn, event },
                            changes.push(ChangeView::AppendEvent(event)),
                        ),
                    ),
                },
            }
        },
    }
}

/// The event that records what a provider says of itself.
pub open spec fn initialization(
    session_id: SessionId,
    model: Seq<char>,
    claude_version: Option<Seq<char>>,
) -> ConversationEventPayloadView {
    ConversationEventPayloadView::Initialized { session_id, model, claude_version }
}

/// Whether a timeline holds an initialization.
pub open spec fn initialized_before(events: Seq<ConversationEventView>) -> bool {
    exists|i: int| 0 <= i < events.len() && (#[trigger] events[i]).payload is Initialized
}

/// Whether a timeline holds an initialization other than the given one.
pub open spec fn initialized_otherwise(
    events: Seq<ConversationEventView>,
    payload: ConversationEventPayloadView,
) -> bool {
    exists|i: int|
        0 <= i < events.len() && (#[trigger] events[i]).payload is Initialized && events[i].payload
            != payload
}

/// What an initialization of a live conversation yields: it must name the intended session, must
/// agree with every earlier one and with what the operation observed, becomes what the operation
/// observed where it is the first, and is appended to the timeline.
pub open spec fn initialization_recorded(
    tables: TablesView,
    id: ConversationId,
    session_id: SessionId,
    model: Seq<char>,
    claude_version: Option<Seq<char>>,
) -> Result<(ConversationEventView, Seq<ChangeView>), OperatorErrorView> {
    let payload = initialization(session_id, model, claude_version);
    match lookup(tables.conversations, id) {
        None => Err(unknown_conversation(id)),
        Some(record) => if record.conversation.state.is_terminal() {
            Err(conflict("conversation initialization is no longer admissible"@))
        } else if session_id != record.conversation.session_id {
            Err(conflict("provider initialization session differs from the intended session"@))
        } else {
            match tables.operation(id.0) {
                None => Err(state_failure("conversation references no operation"@)),
                Some(operation) => if operation.session_id != session_id {
                    Err(state_failure("conversation and operation session identities differ"@))
                } else if initialized_otherwise(record.events, payload) {
                    Err(
                        conflict(
                            "provider initialization contradicts prior conversation identity"@,
                        ),
                    )
                } else {
                    let observed = OperationView {
                        observed_session_id: Some(session_id),
                        observed_model: Some(model),
                        observed_claude_version: claude_version,
                        ..operation
                    };
                    let written = if initialized_before(record.events) {
                        if observed != operation {
                            Err(
                                state_failure(
                                    "provider initialization event and operation identity disagree"@,
                                ),
                            )
                        } else {
                            Ok(Seq::empty())
                        }
                    } else if operation.observed_session_id is Some
                        && operation.observed_session_id != Some(session_id) {
                        Err(
                            conflict(
                                "provider initialization session contradicts operation identity"@,
                            ),
                        )
                    } else if operation.observed_model is Some && operation.observed_model != Some(
                        model,
                    ) {
                        Err(
                            conflict(
                                "provider initialization model contradicts operation identity"@,
                            ),
                        )
                    } else if operation.observed_claude_version is Some
                        && operation.observed_claude_version != claude_version {
                        Err(
                            conflict(
                                "provider initialization version contradicts operation identity"@,
                            ),
                        )
                    } else {
                        Ok(seq![ChangeView::UpdateOperation(observed)])
                    };
                    match written {
                        Err(error) => Err(error),
                        Ok(changes) => match event_after(
                            highest_sequence(record.events),
                            id,
                            payload,
                        ) {
                            Err(error) => Err(error),
                            Ok(event) => Ok((event, changes.push(ChangeView::AppendEvent(event)))),
                        },
                    }
                },
            }
        },
    }
}

/// What asking a conversation to stop yields: an open one starts to close, a graceful close may
/// become a cancellation, and everything else stays as it is.
pub open spec fn closing(
    tables: TablesView,
    id: ConversationId,
    requested: ConversationStopMode,
) -> Result<(ConversationCloseAdmissionView, Seq<ChangeView>), OperatorErrorView> {
    match lookup(tables.conversations, id) {
        None => Err(unknown_conversation(id)),
        Some(record) => {
            let conversation = record.conversation;
            match conversation.state {
                ConversationState::Open => match last_position(record.turns) {
                    Err(error) => Err(error),
                    Ok(through_position) => {
                        let closed = ConversationView {
                            state: ConversationState::Closing,
                            close_mode: Some(requested),
                            ..conversation
                        };
                        Ok(
                            (
                                ConversationCloseAdmissionView::ClosedNow {
                                    conversation: closed,
                                    through_position,
                                },
                                seq![ChangeView::UpdateConversation(closed)],
                            ),
                        )
                    },
                },
                ConversationState::Closing => match conversation.close_mode {
                    None => Err(state_failure("closing conversation has no durable close mode"@)),
                    Some(mode) => if mode is Graceful && requested is Cancel {
                        let escalated = ConversationView {
                            close_mode: Some(ConversationStopMode::Cancel),
                            ..conversation
                        };
                        Ok(
                            (
                                ConversationCloseAdmissionView::EscalatedToCancel(escalated),
                                seq![ChangeView::UpdateConversation(escalated)],
                            ),
                        )
                    } else {
                        Ok(
                            (
                                ConversationCloseAdmissionView::AlreadyClosing(conversation),
                                Seq::empty(),
                            ),
                        )
                    },
                },
                _ => Ok((ConversationCloseAdmissionView::Terminal(conversation), Seq::empty())),
            }
        },
    }
}

/// Whether the end of a conversation, the end of its operation and the outcome say the same.
pub open spec fn ends_agree(
    conversation_state: ConversationState,
    operation_state: OperationState,
    terminal: TerminalOutcomeView,
) -> bool {
    match terminal {
        TerminalOutcomeView::Succeeded(_) => conversation_state is Succeeded
            && operation_state is Succeeded,
        TerminalOutcomeView::Cancelled(_) => conversation_state is Cancelled
            && operation_state is Cancelled,
        TerminalOutcomeView::Failed(_) => conversation_state is Failed && operation_state is Failed,
        TerminalOutcomeView::Indeterminate(_) => conversation_state is Indeterminate
            && operation_state is Indeterminate,
    }
}

/// The writes that end a live conversation and its operation: its unfinished turns are resolved,
/// both records get the outcome, and the timeline ends with it.
pub open spec fn ending(
    record: ConversationRecordView,
    operation: OperationView,
    conversation_state: ConversationState,
    operation_state: OperationState,
    terminal: TerminalOutcomeView,
) -> Result<Seq<ChangeView>, OperatorErrorView> {
    let id = record.conversation.conversation_id;
    match resolution(record.turns, id, conversation_state, highest_sequence(record.events)) {
        Err(error) => Err(error),
        Ok((changes, reached)) => match event_after(
            reached,
            id,
            ConversationEventPayloadView::ConversationTerminal { outcome: terminal },
        ) {
            Err(error) => Err(error),
            Ok(event) => Ok(
                changes + seq![
                    ChangeView::UpdateConversation(
                        ended_conversation(record.conversation, conversation_state, terminal),
                    ),
                    ChangeView::UpdateOperation(
                        ended_operation(operation, operation_state, terminal),
                    ),
                    ChangeView::AppendEvent(event),
                ],
            ),
        },
    }
}

/// A conversation that has ended.
pub open spec fn ended_conversation(
    conversation: ConversationView,
    state: ConversationState,
    terminal: TerminalOutcomeView,
) -> ConversationView {
    ConversationView { state, terminal_outcome: Some(terminal), ..conversation }
}

/// An operation that has ended.
pub open spec fn ended_operation(
    operation: OperationView,
    state: OperationState,
    terminal: TerminalOutcomeView,
) -> OperationView {
    OperationView { state, terminal_outcome: Some(terminal), ..operation }
}

/// What ending a conversation yields. It is idempotent for one and the same outcome, and refuses
/// any other; only an indeterminate end may leave the claim of a possible writer in place.
pub open spec fn termination(
    tables: TablesView,
    id: ConversationId,
    conversation_state: ConversationState,
    operation_state: OperationState,
    terminal: TerminalOutcomeView,
    disposition: SessionClaimDisposition,
) -> Result<(ConversationView, Seq<ChangeView>), OperatorErrorView> {
    if !conversation_state.is_terminal() || !operation_state.is_terminal() {
        Err(state_failure("conversation terminal transition requires terminal states"@))
    } else if disposition is RetainUnclassifiedWriter && !(conversation_state is Indeterminate) {
        Err(
            state_failure(
                "only an indeterminate conversation may retain an unclassified writer claim"@,
            ),
        )
    } else if !ends_agree(conversation_state, operation_state, terminal) {
        Err(state_failure("conversation and operation terminal states disagree"@))
    } else {
        match lookup(tables.conversations, id) {
            None => Err(unknown_conversation(id)),
            Some(record) => if record.conversation.state.is_terminal() {
                if record.conversation.state == conversation_state
                    && record.conversation.terminal_outcome == Some(terminal) {
                    Ok((record.conversation, Seq::empty()))
                } else {
                    Err(conflict("conversation already has a different terminal outcome"@))
                }
            } else {
                match tables.operation(id.0) {
                    None => Err(state_failure("conversation references no operation"@)),
                    Some(operation) => if operation.state.is_terminal() {
                        Err(conflict("operation already has a terminal outcome"@))
                    } else {
                        match ending(
                            record,
                            operation,
                            conversation_state,
                            operation_state,
                            terminal,
                        ) {
                            Err(error) => Err(error),
                            Ok(changes) => Ok(
                                (
                                    ended_conversation(
                                        record.conversation,
                                        conversation_state,
                                        terminal,
                                    ),
                                    match disposition {
                                        SessionClaimDisposition::ReleaseProvenWriter =>
                                            changes.push(
                                            ChangeView::ReleaseSession {
                                                operation_id: operation.operation_id,
                                            },
                                        ),
                                        SessionClaimDisposition::RetainUnclassifiedWriter =>
                                            changes,
                                    },
                                ),
                            ),
                        }
                    },
                }
            },
        }
    }
}

/// Whether the end of a conversation, the end of its operation and the outcome say the same.
fn terminal_states_agree(
    conversation_state: ConversationState,
    operation_state: OperationState,
    terminal: &TerminalOutcome,
) -> (agree: bool)
    ensures
        agree == ends_agree(conversation_state, operation_state, terminal@),
{
    match (conversation_state, operation_state, terminal) {
        (ConversationState::Succeeded, OperationState::Succeeded, TerminalOutcome::Succeeded(_))
        | (ConversationState::Cancelled, OperationState::Cancelled, TerminalOutcome::Cancelled(_))
        | (ConversationState::Failed, OperationState::Failed, TerminalOutcome::Failed(_))
        | (
            ConversationState::Indeterminate,
            OperationState::Indeterminate,
            TerminalOutcome::Indeterminate(_),
        ) => true,
        _ => false,
    }
}

/// The refusal of a conversation that does not exist.
fn unknown(id: ConversationId) -> (error: OperatorError)
    ensures
        error@ == unknown_conversation(id),
{
    OperatorError::UnknownOperation(id.operation_id().to_text())
}

/// The turns without their fingerprints.
fn list_turns(turns: &Vec<TurnRecord>) -> (list: Vec<ConversationTurn>)
    ensures
        views(list@) == bare_turns(views(turns@)),
{
    let mut list: Vec<ConversationTurn> = Vec::new();
    let mut index: usize = 0;
    while index < turns.len()
        invariant
            index <= turns@.len(),
            list@.len() == index,
            forall|i: int| 0 <= i < index ==> (#[trigger] list@[i])@ == turns@[i]@.turn,
        decreases turns@.len() - index,
    {
        list.push(turns[index].turn.clone());
        index = index + 1;
    }
    proof {
        assert(views(list@) =~= bare_turns(views(turns@)));
    }
    list
}

/// Whether a timeline holds an initialization; nothing where it holds another one.
fn prior_initialization(
    events: &Vec<ConversationEvent>,
    session_id: SessionId,
    model: &String,
    claude_version: &Option<String>,
) -> (prior: Option<bool>)
    ensures
        ({
            let payload = initialization(session_id, model@, optional(*claude_version));
            match prior {
                Some(initialized) => !initialized_otherwise(views(events@), payload) && initialized
                    == initialized_before(views(events@)),
                None => initialized_otherwise(views(events@), payload),
            }
        }),
{
    let ghost payload = initialization(session_id, model@, optional(*claude_version));
    let ghost all = views(events@);
    let mut initialized: bool = false;
    let mut index: usize = 0;
    while index < events.len()
        invariant
            index <= events@.len(),
            all == views(events@),
            payload == initialization(session_id, model@, optional(*claude_version)),
            initialized == exists|i: int|
                0 <= i < index && (#[trigger] all[i]).payload is Initialized,
            forall|i: int|
                0 <= i < index && (#[trigger] all[i]).payload is Initialized ==> all[i].payload
                    == payload,
        decreases events@.len() - index,
    {
        proof {
            assert(all[index as int] == events@[index as int]@);
        }
        match &events[index].payload {
            ConversationEventPayload::Initialized {
                session_id: observed_session,
                model: observed_model,
                claude_version: observed_version,
            } => {
                initialized = true;
                if *observed_session != session_id || *observed_model != *model
                    || !same_optional_text(observed_version, claude_version) {
                    return None;
                }
            },
            _ => {},
        }
        index = index + 1;
    }
    Some(initialized)
}

/// The writes that end a live conversation and its operation.
pub(crate) fn end_changes(
    record: &ConversationRecord,
    operation: &Operation,
    conversation_state: ConversationState,
    operation_state: OperationState,
    terminal: &TerminalOutcome,
) -> (ended: Result<Vec<Change>, OperatorError>)
    ensures
        match ended {
            Ok(changes) => ending(
                record@,
                operation@,
                conversation_state,
                operation_state,
                terminal@,
            ) == Ok::<_, OperatorErrorView>(views(changes@)),
            Err(error) => ending(
                record@,
                operation@,
                conversation_state,
                operation_state,
                terminal@,
            ) == Err::<Seq<ChangeView>, _>(error@),
        },
{
    let id = record.conversation.conversation_id;
    let (mut changes, reached) = match resolve_unfinished(
        &record.turns,
        id,
        conversation_state,
        highest(&record.events),
    ) {
        Ok(resolved) => resolved,
        Err(error) => {
            return Err(error);
        },
    };
    let ghost resolved = views(changes@);
    let event = match append(
        reached,
        id,
        ConversationEventPayload::ConversationTerminal { outcome: terminal.clone() },
    ) {
        Ok(event) => event,
        Err(error) => {
            return Err(error);
        },
    };
    let mut conversation = record.conversation.clone();
    conversation.state = conversation_state;
    conversation.terminal_outcome = Some(terminal.clone());
    let mut ended = operation.clone();
    ended.state = operation_state;
    ended.terminal_outcome = Some(terminal.clone());
    changes.push(Change::UpdateConversation(conversation));
    changes.push(Change::UpdateOperation(ended));
    changes.push(Change::AppendEvent(event));
    proof {
        assert(views(changes@) =~= resolved + seq![
            ChangeView::UpdateConversation(conversation@),
            ChangeView::UpdateOperation(ended@),
            ChangeView::AppendEvent(event@),
        ]);
    }
    Ok(changes)
}

impl Tables {
    /// Admits a conversation under the given fresh identity.
    pub fn admit_conversation(
        &self,
        request: &ConversationStart,
        session_id: SessionId,
        fingerprint: &str,
        fresh: OperationId,
    ) -> (admitted: Result<Decided<ConversationStartAdmission>, OperatorError>)
        requires
            self.well_formed(),
        ensures
            decision(admitted) == start_admission(
                self@,
                request@,
                session_id,
                fingerprint@,
                fresh,
            ),
    {
        match self.requested(request.request_id) {
            Some(existing) => {
                return match self.conversation(
                    ConversationId::new(existing.operation.operation_id),
                ) {
                    Some(record) => {
                        if record.turns.len() == 0 {
                            return Err(
                                OperatorError::State(
                                    "conversation has no durable first turn".to_owned(),
                                ),
                            );
                        }
                        unchanged(
                            ConversationStartAdmission::Existing {
                                operation: existing.operation.clone(),
                                conversation: record.conversation.clone(),
                                first_turn: record.turns[0].turn.clone(),
                                fingerprint: existing.fingerprint.clone(),
                            },
                        )
                    },
                    None => unchanged(
                        ConversationStartAdmission::ExistingOperation {
                            operation: existing.operation.clone(),
                            fingerprint: existing.fingerprint.clone(),
                        },
                    ),
                };
            },
            None => {},
        }
        if self.project(&request.project_id).is_none() {
            return unchanged(ConversationStartAdmission::MissingProject);
        }
        match self.claim(session_id) {
            Some(claim) => {
                return match self.operation(claim.operation_id) {
                    Some(record) => unchanged(
                        ConversationStartAdmission::ActiveSession {
                            operation: record.operation.clone(),
                        },
                    ),
                    None => Err(
                        OperatorError::State("active session references no operation".to_owned()),
                    ),
                };
            },
            None => {},
        }
        if !self.identity_is_free(fresh) {
            return Err(OperatorError::State("operation identity is already in use".to_owned()));
        }
        let operation = new_operation(
            fresh,
            request.request_id,
            &request.project_id,
            request.intent,
            session_id,
        );
        let id = ConversationId::new(fresh);
        let conversation = Conversation {
            conversation_id: id,
            project_id: request.project_id.clone(),
            intent: request.intent,
            session_id,
            state: ConversationState::Open,
            close_mode: None,
            terminal_outcome: None,
        };
        let first_turn = ConversationTurn {
            conversation_id: id,
            turn_id: request.turn_id,
            position: FIRST_TURN_POSITION,
            prompt: request.prompt.clone(),
            state: TurnState::Queued,
            result: None,
        };
        let queued = match append(
            0,
            id,
            ConversationEventPayload::TurnQueued { turn_id: request.turn_id },
        ) {
            Ok(event) => event,
            Err(error) => {
                return Err(error);
            },
        };
        let mut changes = Vec::new();
        changes.push(
            Change::InsertOperation(
                OperationRecord {
                    operation: operation.clone(),
                    fingerprint: fingerprint.to_owned(),
                },
            ),
        );
        changes.push(Change::ClaimSession(Claim { session_id, operation_id: fresh }));
        changes.push(Change::InsertConversation(conversation.clone()));
        changes.push(
            Change::InsertTurn(
                TurnRecord { turn: first_turn.clone(), fingerprint: fingerprint.to_owned() },
            ),
        );
        changes.push(Change::AppendEvent(queued));
        proof {
            assert(views(changes@) =~= seq![
                ChangeView::InsertOperation(
                    OperationRecordView { operation: operation@, fingerprint: fingerprint@ },
                ),
                ChangeView::ClaimSession(Claim { session_id, operation_id: fresh }),
                ChangeView::InsertConversation(conversation@),
                ChangeView::InsertTurn(
                    TurnRecordView { turn: first_turn@, fingerprint: fingerprint@ },
                ),
                ChangeView::AppendEvent(queued@),
            ]);
        }
        changed(
            ConversationStartAdmission::Inserted { operation, conversation, first_turn },
            changes,
        )
    }

    /// Admits a conversation under a random fresh identity.
    pub fn persist_conversation_start(
        &self,
        request: &ConversationStart,
        session_id: SessionId,
        fingerprint: &str,
    ) -> (admitted: Result<Decided<ConversationStartAdmission>, OperatorError>)
        requires
            self.well_formed(),
        ensures
            exists|fresh: OperationId|
                random_uuid_layout(fresh.0) && decision(admitted) == #[trigger] start_admission(
                    self@,
                    request@,
                    session_id,
                    fingerprint@,
                    fresh,
                ),
    {
        let fresh = OperationId::new();
        self.admit_conversation(request, session_id, fingerprint, fresh)
    }

    /// The conversation under an identity.
    pub fn get_conversation(&self, id: ConversationId) -> (found: Result<
        Conversation,
        OperatorError,
    >)
        requires
            self.well_formed(),
        ensures
            answer(found) == (match lookup(self@.conversations, id) {
                Some(record) => Ok(record.conversation),
                None => Err(unknown_conversation(id)),
            }),
    {
        match self.conversation(id) {
            Some(record) => Ok(record.conversation.clone()),
            None => Err(unknown(id)),
        }
    }

    /// A conversation with its turns, and its events after a cursor.
    pub fn get_conversation_snapshot(&self, id: ConversationId, cursor: u64) -> (found: Result<
        ConversationSnapshot,
        OperatorError,
    >)
        requires
            self.well_formed(),
        ensures
            answer(found) == conversation_read(self@, id, cursor),
    {
        let record = match self.conversation(id) {
            Some(record) => record,
            None => {
                return Err(unknown(id));
            },
        };
        match list_after(&record.events, cursor) {
            Ok(events) => Ok(
                ConversationSnapshot {
                    conversation: record.conversation.clone(),
                    turns: list_turns(&record.turns),
                    events,
                },
            ),
            Err(error) => Err(error),
        }
    }

    /// Admits a further turn.
    pub fn persist_conversation_turn(&self, request: &ConversationSend, fingerprint: &str) -> (
    admitted: Result<Decided<ConversationTurnAdmission>, OperatorError>)
        requires
            self.well_formed(),
        ensures
            decision(admitted) == turn_admission(self@, request@, fingerprint@),
    {
        proof {
            self.lemma_consistent();
        }
        let id = request.conversation_id;
        let record = match self.conversation(id) {
            Some(record) => record,
            None => {
                return unchanged(ConversationTurnAdmission::MissingConversation);
            },
        };
        proof {
            assert(self@.conversations.contains_key(id));
        }
        match record.turn(request.turn_id) {
            Some(existing) => {
                return unchanged(
                    ConversationTurnAdmission::Existing {
                        turn: existing.turn.clone(),
                        fingerprint: existing.fingerprint.clone(),
                    },
                );
            },
            None => {},
        }
        if record.conversation.state != ConversationState::Open {
            return unchanged(
                ConversationTurnAdmission::Closed { conversation: record.conversation.clone() },
            );
        }
        let position: u64 = match next_position(&record.turns) {
            Ok(position) => position,
            Err(error) => {
                return Err(error);
            },
        };
        let turn = ConversationTurn {
            conversation_id: id,
            turn_id: request.turn_id,
            position,
            prompt: request.prompt.clone(),
            state: TurnState::Queued,
            result: None,
        };
        let event = match append(
            highest(&record.events),
            id,
            ConversationEventPayload::TurnQueued { turn_id: request.turn_id },
        ) {
            Ok(event) => event,
            Err(error) => {
                return Err(error);
            },
        };
        let mut changes = Vec::new();
        changes.push(
            Change::InsertTurn(
                TurnRecord { turn: turn.clone(), fingerprint: fingerprint.to_owned() },
            ),
        );
        changes.push(Change::AppendEvent(event));
        proof {
            assert(views(changes@) =~= seq![
                ChangeView::InsertTurn(
                    TurnRecordView { turn: turn@, fingerprint: fingerprint@ },
                ),
                ChangeView::AppendEvent(event@),
            ]);
        }
        changed(ConversationTurnAdmission::Inserted(turn), changes)
    }

    /// Records one observation of a turn.
    pub fn record_conversation_turn_observation(
        &self,
        id: ConversationId,
        turn_id: TurnId,
        state: Option<TurnState>,
        result: Option<String>,
        payload: ConversationEventPayload,
    ) -> (observed: Result<Decided<ConversationTurnObservation>, OperatorError>)
        requires
            self.well_formed(),
        ensures
            decision(observed) == observation(
                self@,
                id,
                turn_id,
                state,
                optional(result),
                payload@,
            ),
    {
        proof {
            self.lemma_consistent();
        }
        let record = match self.conversation(id) {
            Some(record) => record,
            None => {
                return Err(unknown(id));
            },
        };
        proof {
            assert(self@.conversations.contains_key(id));
        }
        if record.conversation.state.terminal() {
            return Err(
                OperatorError::Conflict(
                    "terminal conversation cannot append a turn observation".to_owned(),
                ),
            );
        }
        let observed = match record_transition(record, turn_id, state, result, &payload) {
            Ok(observed) => observed,
            Err(error) => {
                return Err(error);
            },
        };
        let event = match append(highest(&record.events), id, payload) {
            Ok(event) => event,
            Err(error) => {
                return Err(error);
            },
        };
        let turn = observed.value;
        let mut changes = observed.changes;
        let ghost before = views(changes@);
        changes.push(Change::AppendEvent(event.clone()));
        proof {
            assert(views(changes@) =~= before.push(ChangeView::AppendEvent(event@)));
        }
        changed(ConversationTurnObservation { turn, event }, changes)
    }

    /// Records what a provider says of itself.
    pub fn record_conversation_initialization(
        &self,
        id: ConversationId,
        session_id: SessionId,
        model: String,
        claude_version: Option<String>,
    ) -> (recorded: Result<Decided<ConversationEvent>, OperatorError>)
        requires
            self.well_formed(),
        ensures
            decision(recorded) == initialization_recorded(
                self@,
                id,
                session_id,
                model@,
                optional(claude_version),
            ),
    {
        let record = match self.conversation(id) {
            Some(record) => record,
            None => {
                return Err(unknown(id));
            },
        };
        if record.conversation.state.terminal() {
            return Err(
                OperatorError::Conflict(
                    "conversation initialization is no longer admissible".to_owned(),
                ),
            );
        }
        if session_id != record.conversation.session_id {
            return Err(
                OperatorError::Conflict(
                    "provider initialization session differs from the intended session".to_owned(),
                ),
            );
        }
        let mut operation = match self.operation(id.operation_id()) {
            Some(found) => found.operation.clone(),
            None => {
                return Err(OperatorError::State("conversation references no operation".to_owned()));
            },
        };
        if operation.session_id != session_id {
            return Err(
                OperatorError::State(
                    "conversation and operation session identities differ".to_owned(),
                ),
            );
        }
        let initialized = match prior_initialization(
            &record.events,
            session_id,
            &model,
            &claude_version,
        ) {
            Some(initialized) => initialized,
            None => {
                return Err(
                    OperatorError::Conflict(
                        "provider initialization contradicts prior conversation identity".to_owned(),
                    ),
                );
            },
        };
        let mut changes: Vec<Change> = Vec::new();
        let agrees = operation.observed_session_id == Some(session_id) && same_optional_text(
            &operation.observed_model,
            &Some(model.clone()),
        ) && same_optional_text(&operation.observed_claude_version, &claude_version);
        if initialized {
            if !agrees {
                return Err(
                    OperatorError::State(
                        "provider initialization event and operation identity disagree".to_owned(),
                    ),
                );
            }
            proof {
                assert(views(changes@) =~= Seq::<ChangeView>::empty());
            }
        } else {
            if operation.observed_session_id.is_some() && operation.observed_session_id != Some(
                session_id,
            ) {
                return Err(
                    OperatorError::Conflict(
                        "provider initialization session contradicts operation identity".to_owned(),
                    ),
                );
            }
            if operation.observed_model.is_some() && !same_optional_text(
                &operation.observed_model,
                &Some(model.clone()),
            ) {
                return Err(
                    OperatorError::Conflict(
                        "provider initialization model contradicts operation identity".to_owned(),
                    ),
                );
            }
            if operation.observed_claude_version.is_some() && !same_optional_text(
                &operation.observed_claude_version,
                &claude_version,
            ) {
                return Err(
                    OperatorError::Conflict(
                        "provider initialization version contradicts operation identity".to_owned(),
                    ),
                );
            }
            operation.observed_session_id = Some(session_id);
            operation.observed_model = Some(model.clone());
            operation.observed_claude_version = claude_version.clone();
            changes.push(Change::UpdateOperation(operation.clone()));
            proof {
                assert(views(changes@) =~= seq![ChangeView::UpdateOperation(operation@)]);
            }
        }
        let ghost before = views(changes@);
        let event = match append(
            highest(&record.events),
            id,
            ConversationEventPayload::Initialized { session_id, model, claude_version },
        ) {
            Ok(event) => event,
            Err(error) => {
                return Err(error);
            },
        };
        changes.push(Change::AppendEvent(event.clone()));
        proof {
            assert(views(changes@) =~= before.push(ChangeView::AppendEvent(event@)));
        }
        changed(event, changes)
    }

    /// Asks a conversation to stop.
    pub fn close_conversation(&self, id: ConversationId, requested: ConversationStopMode) -> (
    closed: Result<Decided<ConversationCloseAdmission>, OperatorError>)
        requires
            self.well_formed(),
        ensures
            decision(closed) == closing(self@, id, requested),
    {
        let record = match self.conversation(id) {
            Some(record) => record,
            None => {
                return Err(unknown(id));
            },
        };
        let mut conversation = record.conversation.clone();
        let mut changes = Vec::new();
        match conversation.state {
            ConversationState::Open => {
                let through_position: u64 = match highest_position(&record.turns) {
                    Ok(position) => position,
                    Err(error) => {
                        return Err(error);
                    },
                };
                conversation.state = ConversationState::Closing;
                conversation.close_mode = Some(requested);
                changes.push(Change::UpdateConversation(conversation.clone()));
                proof {
                    assert(views(changes@) =~= seq![
                        ChangeView::UpdateConversation(conversation@),
                    ]);
                }
                changed(
                    ConversationCloseAdmission::ClosedNow { conversation, through_position },
                    changes,
                )
            },
            ConversationState::Closing => match conversation.close_mode {
                Some(mode) => {
                    if mode == ConversationStopMode::Graceful && requested
                        == ConversationStopMode::Cancel {
                        conversation.close_mode = Some(ConversationStopMode::Cancel);
                        changes.push(Change::UpdateConversation(conversation.clone()));
                        proof {
                            assert(views(changes@) =~= seq![
                                ChangeView::UpdateConversation(conversation@),
                            ]);
                        }
                        changed(
                            ConversationCloseAdmission::EscalatedToCancel(conversation),
                            changes,
                        )
                    } else {
                        unchanged(ConversationCloseAdmission::AlreadyClosing(conversation))
                    }
                },
                None => Err(
                    OperatorError::State(
                        "closing conversation has no durable close mode".to_owned(),
                    ),
                ),
            },
            ConversationState::Succeeded
            | ConversationState::Cancelled
            | ConversationState::Failed
            | ConversationState::Indeterminate => unchanged(
                ConversationCloseAdmission::Terminal(conversation),
            ),
        }
    }

    /// Ends a conversation and its operation.
    pub fn terminalize_conversation(
        &self,
        id: ConversationId,
        conversation_state: ConversationState,
        operation_state: OperationState,
        terminal: TerminalOutcome,
        disposition: SessionClaimDisposition,
    ) -> (ended: Result<Decided<Conversation>, OperatorError>)
        requires
            self.well_formed(),
        ensures
            decision(ended) == termination(
                self@,
                id,
                conversation_state,
                operation_state,
                terminal@,
                disposition,
            ),
    {
        if !conversation_state.terminal() || !operation_state.terminal() {
            return Err(
                OperatorError::State(
                    "conversation terminal transition requires terminal states".to_owned(),
                ),
            );
        }
        if disposition == SessionClaimDisposition::RetainUnclassifiedWriter && conversation_state
            != ConversationState::Indeterminate {
            return Err(
                OperatorError::State(
                    "only an indeterminate conversation may retain an unclassified writer claim".to_owned(),
                ),
            );
        }
        if !terminal_states_agree(conversation_state, operation_state, &terminal) {
            return Err(
                OperatorError::State(
                    "conversation and operation terminal states disagree".to_owned(),
                ),
            );
        }
        let record = match self.conversation(id) {
            Some(record) => record,
            None => {
                return Err(unknown(id));
            },
        };
        if record.conversation.state.terminal() {
            let same = match &record.conversation.terminal_outcome {
                Some(outcome) => outcome.same(&terminal),
                None => false,
            };
            if record.conversation.state == conversation_state && same {
                return unchanged(record.conversation.clone());
            }
            return Err(
                OperatorError::Conflict(
                    "conversation already has a different terminal outcome".to_owned(),
                ),
            );
        }
        let operation = match self.operation(id.operation_id()) {
            Some(found) => &found.operation,
            None => {
                return Err(OperatorError::State("conversation references no operation".to_owned()));
            },
        };
        if operation.state.terminal() {
            return Err(
                OperatorError::Conflict("operation already has a terminal outcome".to_owned()),
            );
        }
        let mut changes = match end_changes(
            record,
            operation,
            conversation_state,
            operation_state,
            &terminal,
        ) {
            Ok(changes) => changes,
            Err(error) => {
                return Err(error);
            },
        };
        let mut conversation = record.conversation.clone();
        conversation.state = conversation_state;
        conversation.terminal_outcome = Some(terminal);
        let ghost before = views(changes@);
        match disposition {
            SessionClaimDisposition::ReleaseProvenWriter => {
                changes.push(Change::ReleaseSession { operation_id: operation.operation_id });
                proof {
                    assert(views(changes@) =~= before.push(
                        ChangeView::ReleaseSession { operation_id: operation@.operation_id },
                    ));
                }
            },
            SessionClaimDisposition::RetainUnclassifiedWriter => {},
        }
        changed(conversation, changes)
    }
}

} // verus!
