//! What becomes of a conversation from its request to its stop, told of the requests, the events and
//! the records themselves.

use vstd::prelude::*;

use crate::contract::control::{
    ConversationEventPayloadView, ConversationEventView, ConversationSendView,
    ConversationSnapshotView, ConversationStartAdmissionView, ConversationStartView,
    ConversationState, ConversationStopMode, ConversationTurnView, ConversationView,
    OperatorErrorView, ProjectRegistrationView, TerminalOutcomeView, TurnState,
};
use crate::contract::identity::{ConversationId, OperationId, SessionId};
use crate::contract::target::{TargetLiveStartErrorView, TargetLiveStop};
use crate::control::admission::{hexadecimal, sha256};
use crate::control::conversation::{
    live_launch_facts, live_requested, send_requested, stop_requested, LivePlanView, SendPlanView,
    StopPlanView,
};
use crate::control::live::{
    live_moved, send_moved, stop_moved, LiveEventView, LiveStepView, SendEventView, SendStepView,
    StopEventView, StopStepView,
};
use crate::control::recorder::{recorder_moved, RecordTail, RecorderEventView, RecorderStepView};
use crate::identifier::uuid_text;
use crate::state::conversation::{closing, conversation_read, start_admission, turn_admission};
use crate::state::conversation_laws::{
    closing_keeps_the_rest, event_cursor_reads_the_rest, lemma_highest, lemma_started, lemma_top,
    lemma_turn_inserted, numbered,
};
use crate::state::tables::{
    has_turn, lemma_turn_place, ChangeView, Claim, TablesView, TurnRecordView,
};

verus! {

/// Whether nothing bears an identity.
pub open spec fn identity_unused(tables: TablesView, fresh: OperationId) -> bool {
    &&& !tables.operations.contains_key(fresh)
    &&& !tables.diagnostics.contains_key(fresh)
    &&& !tables.conversations.contains_key(ConversationId(fresh))
    &&& forall|session: SessionId| #[trigger]
        tables.claims.contains_key(session) ==> tables.claims[session].operation_id != fresh
}

/// Whether no operation was admitted for a request.
pub open spec fn unrequested(tables: TablesView, request: ConversationStartView) -> bool {
    forall|id: OperationId| #[trigger]
        tables.operations.contains_key(id) ==> tables.operations[id].operation.request_id
            != request.request_id
}

/// A complete new request of a registered project, whose session nobody holds, opens a conversation:
/// open, with its first turn queued at position one and told by the first event; it alone claims
/// its session.
pub proof fn new_conversation_is_opened(
    tables: TablesView,
    request: ConversationStartView,
    encoded: Seq<u8>,
    session: SessionId,
    fresh: OperationId,
)
    requires
        tables.consistent(),
        request.prompt.len() > 0,
        tables.projects.contains_key(request.project_id),
        unrequested(tables, request),
        !tables.claims.contains_key(session),
        identity_unused(tables, fresh),
    ensures
        live_requested(tables, request, true, Ok(encoded), session, fresh) matches Ok((
            LivePlanView::Start { operation_id, first_turn },
            changes,
        )) && operation_id == fresh && first_turn == (ConversationTurnView {
            conversation_id: ConversationId(fresh),
            turn_id: request.turn_id,
            position: 1,
            prompt: request.prompt,
            state: TurnState::Queued,
            result: None,
        }) && ({
            let after = tables.after_all(changes);
            let record = after.conversations[ConversationId(fresh)];
            let operation = after.operations[fresh].operation;
            &&& after.conversations.contains_key(ConversationId(fresh))
            &&& record.conversation == (ConversationView {
                conversation_id: ConversationId(fresh),
                project_id: request.project_id,
                intent: request.intent,
                session_id: session,
                state: ConversationState::Open,
                close_mode: None,
                terminal_outcome: None,
            })
            &&& record.turns.len() == 1
            &&& record.turns[0].turn == first_turn
            &&& record.events == seq![
                ConversationEventView {
                    conversation_id: ConversationId(fresh),
                    sequence: 1,
                    payload: ConversationEventPayloadView::TurnQueued { turn_id: request.turn_id },
                },
            ]
            &&& after.operations.contains_key(fresh)
            &&& operation.operation_id == fresh
            &&& operation.request_id == request.request_id
            &&& operation.project_id == request.project_id
            &&& operation.intent == request.intent
            &&& operation.session_id == session
            &&& operation.state is Accepted
            &&& operation.observed_session_id is None
            &&& operation.observed_model is None
            &&& operation.terminal_outcome is None
            &&& after.operations[fresh].fingerprint == hexadecimal(sha256(encoded))
            &&& after.claims == tables.claims.insert(
                session,
                Claim { session_id: session, operation_id: fresh },
            )
        }),
{
    assert(!tables.has_request(request.request_id));
    assert(!tables.has_claim(fresh));
    let fingerprint = hexadecimal(sha256(encoded));
    let (admitted, changes) = start_admission(tables, request, session, fingerprint, fresh)->Ok_0;
    match admitted {
        ConversationStartAdmissionView::Inserted { operation, conversation, first_turn } => {
            lemma_started(
                tables,
                request,
                session,
                fingerprint,
                fresh,
                operation,
                conversation,
                first_turn,
                changes,
            );
        },
        _ => {},
    }
}

/// A conversation for a session that is held is refused: where its holder was interrupted the
/// session is unclassified, and otherwise it has a current writer.
pub proof fn held_session_opens_no_conversation(
    tables: TablesView,
    request: ConversationStartView,
    encoded: Seq<u8>,
    session: SessionId,
    fresh: OperationId,
)
    requires
        request.prompt.len() > 0,
        tables.projects.contains_key(request.project_id),
        unrequested(tables, request),
        tables.claims.contains_key(session),
        tables.operations.contains_key(tables.claims[session].operation_id),
        tables.operations[tables.claims[session].operation_id].operation.session_id == session,
    ensures
        live_requested(tables, request, true, Ok(encoded), session, fresh) == Err::<
            (LivePlanView, Seq<ChangeView>),
            _,
        >(
            if tables.operations[tables.claims[session].operation_id].operation.state
                is Indeterminate {
                OperatorErrorView::UnclassifiedSession(uuid_text(session.0))
            } else {
                OperatorErrorView::Conflict("target session already has a current writer"@)
            },
        ),
{
    assert(!tables.has_request(request.request_id));
}

/// A request for a conversation without a prompt, of a project that is not registered or has no
/// directory, or that cannot be encoded, is refused, and says which.
pub proof fn incomplete_conversation_is_refused(
    tables: TablesView,
    request: ConversationStartView,
    is_directory: bool,
    encoded: Result<Seq<u8>, Seq<char>>,
    session: SessionId,
    fresh: OperationId,
)
    ensures
        ({
            let result = live_requested(tables, request, is_directory, encoded, session, fresh);
            if request.prompt.len() == 0 {
                result matches Err(error) && error == OperatorErrorView::InvalidRequest(
                    "prompt must not be empty"@,
                )
            } else if !tables.projects.contains_key(request.project_id) {
                result matches Err(error) && error == OperatorErrorView::UnknownProject(
                    request.project_id,
                )
            } else if !is_directory {
                result matches Err(error) && error == OperatorErrorView::InvalidRequest(
                    "registered working_directory is not a directory"@,
                )
            } else {
                encoded matches Err(message) ==> (result matches Err(error) && error
                    == OperatorErrorView::State(message))
            }
        }),
{
}

/// The same request again is answered with its whole conversation and writes nothing; its identity
/// with other content, or of a one-shot operation, is a conflict.
pub proof fn conversation_is_opened_once(
    tables: TablesView,
    request: ConversationStartView,
    encoded: Seq<u8>,
    session: SessionId,
    fresh: OperationId,
    admitted: OperationId,
)
    requires
        tables.consistent(),
        request.prompt.len() > 0,
        tables.projects.contains_key(request.project_id),
        tables.operations.contains_key(admitted),
        tables.operations[admitted].operation.request_id == request.request_id,
        tables.conversations.contains_key(ConversationId(admitted))
            ==> tables.conversations[ConversationId(admitted)].turns.len() > 0
            && numbered(tables.conversations[ConversationId(admitted)]),
    ensures
        ({
            let result = live_requested(tables, request, true, Ok(encoded), session, fresh);
            let record = tables.conversations[ConversationId(admitted)];
            if tables.operations[admitted].fingerprint != hexadecimal(sha256(encoded)) {
                result matches Err(error) && error == OperatorErrorView::Conflict(
                    "request UUID was reused with different conversation content"@,
                )
            } else if !tables.conversations.contains_key(ConversationId(admitted)) {
                result matches Err(error) && error == OperatorErrorView::Conflict(
                    "request UUID is already occupied by a one-shot operation"@,
                )
            } else {
                result matches Ok((LivePlanView::Answered(snapshot), changes)) && changes.len() == 0
                    && tells_all(tables, ConversationId(admitted), snapshot)
            }
        }),
{
    assert(tables.has_request(request.request_id));
    let id = ConversationId(admitted);
    if tables.conversations.contains_key(id) {
        lemma_tells_all(tables, id);
    }
}

/// Whether a snapshot tells a stored conversation with all its turns and events.
pub open spec fn tells_all(
    tables: TablesView,
    id: ConversationId,
    snapshot: ConversationSnapshotView,
) -> bool {
    let record = tables.conversations[id];
    &&& tables.conversations.contains_key(id)
    &&& snapshot.conversation == record.conversation
    &&& snapshot.turns.len() == record.turns.len()
    &&& forall|i: int|
        0 <= i < record.turns.len() ==> #[trigger] snapshot.turns[i] == record.turns[i].turn
    &&& snapshot.events == record.events
}

/// A reading from the start tells everything.
proof fn lemma_tells_all(tables: TablesView, id: ConversationId)
    requires
        tables.conversations.contains_key(id),
        numbered(tables.conversations[id]),
    ensures
        conversation_read(tables, id, 0) matches Ok(snapshot) && tells_all(tables, id, snapshot),
{
    let events = tables.conversations[id].events;
    event_cursor_reads_the_rest(events, 0);
    assert(events.skip(0) =~= events);
}

/// A launch of a conversation is told the directory, the executable and the model of the project,
/// the session, and the first turn, unchanged.
pub proof fn live_launch_is_told_what_was_registered(
    operation_id: OperationId,
    session: SessionId,
    project: ProjectRegistrationView,
    request: ConversationStartView,
    turn: ConversationTurnView,
)
    ensures
        ({
            let start = live_launch_facts(operation_id, session, project, request, turn);
            &&& start.operation_id.0 == operation_id.0
            &&& start.working_directory == project.working_directory
            &&& start.executable == project.claude_executable
            &&& start.expected_model == project.expected_opus_model
            &&& start.session_id.0 == session.0
            &&& start.first_turn.turn_id.0 == turn.turn_id.0
            &&& start.first_turn.position == turn.position
            &&& start.first_turn.prompt == turn.prompt
            &&& request.intent is New <==> start.intent is New
        }),
{
}

/// A new turn of an open conversation is admitted at the next position, told by the next event, and
/// given to the target as it was asked for.
pub proof fn new_turn_is_delivered(
    tables: TablesView,
    request: ConversationSendView,
    encoded: Seq<u8>,
)
    requires
        tables.consistent(),
        request.prompt.len() > 0,
        tables.conversations.contains_key(request.conversation_id),
        tables.conversations[request.conversation_id].conversation.state is Open,
        forall|i: int|
            0 <= i < tables.conversations[request.conversation_id].turns.len() ==> (
            #[trigger] tables.conversations[request.conversation_id].turns[i]).turn.turn_id
                != request.turn_id,
        numbered(tables.conversations[request.conversation_id]),
        tables.conversations[request.conversation_id].turns.len() < i64::MAX,
        tables.conversations[request.conversation_id].events.len() < i64::MAX,
    ensures
        ({
            let before = tables.conversations[request.conversation_id];
            send_requested(tables, request, Ok(encoded)) matches Ok((
                SendPlanView::Deliver(turn),
                changes,
            )) && turn.turn_id.0 == request.turn_id.0 && turn.prompt == request.prompt
                && turn.position == before.turns.len() + 1 && ({
                let after = tables.after_all(changes).conversations[request.conversation_id];
                &&& after.conversation == before.conversation
                &&& after.turns == before.turns.push(
                    TurnRecordView {
                        turn: ConversationTurnView {
                            conversation_id: request.conversation_id,
                            turn_id: request.turn_id,
                            position: (before.turns.len() + 1) as u64,
                            prompt: request.prompt,
                            state: TurnState::Queued,
                            result: None,
                        },
                        fingerprint: hexadecimal(sha256(encoded)),
                    },
                )
                &&& after.events == before.events.push(
                    ConversationEventView {
                        conversation_id: request.conversation_id,
                        sequence: (before.events.len() + 1) as u64,
                        payload: ConversationEventPayloadView::TurnQueued {
                            turn_id: request.turn_id,
                        },
                    },
                )
            })
        }),
{
    let before = tables.conversations[request.conversation_id];
    assert(!has_turn(before.turns, request.turn_id));
    lemma_highest(before.events);
    lemma_top(before.turns);
    let fingerprint = hexadecimal(sha256(encoded));
    let (admitted, changes) = turn_admission(tables, request, fingerprint)->Ok_0;
    let turn = admitted->Inserted_0;
    lemma_turn_inserted(tables, request, fingerprint, turn, changes);
}

/// A turn that was admitted before is answered with the whole conversation where its content is the
/// same, and is a conflict where it is not; either way nothing is written or delivered.
pub proof fn turn_is_delivered_once(
    tables: TablesView,
    request: ConversationSendView,
    encoded: Seq<u8>,
    i: int,
)
    requires
        tables.consistent(),
        request.prompt.len() > 0,
        tables.conversations.contains_key(request.conversation_id),
        0 <= i < tables.conversations[request.conversation_id].turns.len(),
        tables.conversations[request.conversation_id].turns[i].turn.turn_id == request.turn_id,
        numbered(tables.conversations[request.conversation_id]),
    ensures
        ({
            let stored = tables.conversations[request.conversation_id].turns[i].fingerprint;
            let result = send_requested(tables, request, Ok(encoded));
            if stored == hexadecimal(sha256(encoded)) {
                result matches Ok((SendPlanView::Answered(snapshot), changes)) && changes.len() == 0
                    && tells_all(tables, request.conversation_id, snapshot)
            } else {
                result matches Err(error) && error == OperatorErrorView::Conflict(
                    "request UUID was reused with different conversation content"@,
                )
            }
        }),
{
    lemma_turn_place(tables.conversations[request.conversation_id].turns, i);
    lemma_tells_all(tables, request.conversation_id);
}

/// A turn without a prompt, of a conversation that is unknown or no longer open, is refused, and
/// says which.
pub proof fn other_turn_is_refused(
    tables: TablesView,
    request: ConversationSendView,
    encoded: Seq<u8>,
)
    ensures
        ({
            let result = send_requested(tables, request, Ok(encoded));
            let record = tables.conversations[request.conversation_id];
            if request.prompt.len() == 0 {
                result matches Err(error) && error == OperatorErrorView::InvalidRequest(
                    "prompt must not be empty"@,
                )
            } else if !tables.conversations.contains_key(request.conversation_id) {
                result matches Err(error) && error == OperatorErrorView::UnknownOperation(
                    uuid_text(request.conversation_id.0.0),
                )
            } else {
                !(record.conversation.state is Open) && (forall|i: int|
                    0 <= i < record.turns.len() ==> (#[trigger] record.turns[i]).turn.turn_id
                        != request.turn_id) ==> (result matches Err(error) && error
                    == OperatorErrorView::Conflict("conversation no longer admits turns"@))
            }
        }),
{
}

/// A stop of an open conversation closes it in the asked way, and asks its target: gracefully
/// through the last turn that was admitted, or to cancel at once.
pub proof fn open_conversation_is_stopped(
    tables: TablesView,
    id: ConversationId,
    mode: ConversationStopMode,
)
    requires
        tables.consistent(),
        tables.conversations.contains_key(id),
        tables.conversations[id].conversation.state is Open,
        tables.conversations[id].turns.len() > 0,
        numbered(tables.conversations[id]),
        tables.conversations[id].turns.len() <= u64::MAX,
    ensures
        stop_requested(tables, id, mode) matches Ok((StopPlanView::Request(asked), changes)) && (
        match mode {
            ConversationStopMode::Graceful => asked == (TargetLiveStop::Graceful {
                through_position: tables.conversations[id].turns.len() as u64,
            }),
            ConversationStopMode::Cancel => asked is Cancel,
        }) && ({
            let before = tables.conversations[id];
            let after = tables.after_all(changes).conversations[id];
            &&& after.conversation.state is Closing
            &&& after.conversation.close_mode == Some(mode)
            &&& after.conversation.terminal_outcome == before.conversation.terminal_outcome
            &&& after.turns == before.turns
            &&& after.events == before.events
            &&& tables.after_all(changes).claims == tables.claims
        }),
{
    lemma_top(tables.conversations[id].turns);
    let (closed, changes) = closing(tables, id, mode)->Ok_0;
    closing_keeps_the_rest(tables, id, mode, closed, changes);
}

/// A cancellation of a conversation that is closing gracefully is passed on to its target; any other
/// stop of one that is closing or has ended is answered with the conversation as it is, and changes
/// nothing.
pub proof fn closing_conversation_is_cancelled(
    tables: TablesView,
    id: ConversationId,
    mode: ConversationStopMode,
)
    requires
        tables.consistent(),
        tables.conversations.contains_key(id),
        !(tables.conversations[id].conversation.state is Open),
        tables.conversations[id].conversation.state is Closing
            ==> tables.conversations[id].conversation.close_mode is Some,
        numbered(tables.conversations[id]),
    ensures
        ({
            let before = tables.conversations[id].conversation;
            let result = stop_requested(tables, id, mode);
            if before.state is Closing && before.close_mode == Some(ConversationStopMode::Graceful)
                && mode is Cancel {
                result matches Ok((StopPlanView::Request(asked), changes)) && asked is Cancel && ({
                    let after = tables.after_all(changes).conversations[id];
                    &&& after.conversation.state is Closing
                    &&& after.conversation.close_mode == Some(ConversationStopMode::Cancel)
                    &&& after.turns == tables.conversations[id].turns
                    &&& after.events == tables.conversations[id].events
                })
            } else {
                result matches Ok((StopPlanView::Answered(snapshot), changes)) && changes.len() == 0
                    && tells_all(tables, id, snapshot)
            }
        }),
{
    lemma_tells_all(tables, id);
    let (closed, changes) = closing(tables, id, mode)->Ok_0;
    closing_keeps_the_rest(tables, id, mode, closed, changes);
}

/// A stop of a conversation that is unknown is refused with its identity.
pub proof fn unknown_conversation_is_not_stopped(
    tables: TablesView,
    id: ConversationId,
    mode: ConversationStopMode,
)
    requires
        !tables.conversations.contains_key(id),
    ensures
        stop_requested(tables, id, mode) == Err::<(StopPlanView, Seq<ChangeView>), _>(
            OperatorErrorView::UnknownOperation(uuid_text(id.0.0)),
        ),
{
}

/// Where the start of a conversation stands after events, one after the other.
pub open spec fn live_after(step: LiveStepView, events: Seq<LiveEventView>) -> LiveStepView
    decreases events.len(),
{
    if events.len() == 0 {
        step
    } else {
        live_moved(live_after(step, events.drop_last()), events.last())
    }
}

/// One more event.
proof fn lemma_live_after(step: LiveStepView, events: Seq<LiveEventView>, event: LiveEventView)
    ensures
        live_after(step, events.push(event)) == live_moved(live_after(step, events), event),
{
    assert(events.push(event).drop_last() =~= events);
}

/// The first events of a start whose target started.
pub open spec fn target_started() -> Seq<LiveEventView> {
    seq![LiveEventView::GateOpened(Ok(())), LiveEventView::TargetStarted { refusal: None }]
}

/// A start whose target started has to be marked running.
proof fn lemma_target_started()
    ensures
        live_after(LiveStepView::OpenGate, target_started()) is MarkRunning,
{
    let none = Seq::<LiveEventView>::empty();
    let opened = LiveEventView::GateOpened(Ok(()));
    let started = LiveEventView::TargetStarted { refusal: None };
    lemma_live_after(LiveStepView::OpenGate, none, opened);
    lemma_live_after(LiveStepView::OpenGate, none.push(opened), started);
    assert(target_started() =~= none.push(opened).push(started));
}

/// A conversation whose target started, that durably runs and is observed, and whose target took
/// the permission to go on, is answered as it is read.
pub proof fn started_conversation_is_answered(
    read: Result<ConversationSnapshotView, OperatorErrorView>,
)
    ensures
        live_after(
            LiveStepView::OpenGate,
            target_started().push(LiveEventView::MarkedRunning(Ok(()))).push(
                LiveEventView::ObserverSpawned(Ok(())),
            ).push(LiveEventView::Told { received: true }).push(LiveEventView::Read(read)),
        ) == LiveStepView::Done(read),
{
    let open = LiveStepView::OpenGate;
    let marked = target_started().push(LiveEventView::MarkedRunning(Ok(())));
    let observed = marked.push(LiveEventView::ObserverSpawned(Ok(())));
    let granted = observed.push(LiveEventView::Told { received: true });
    lemma_target_started();
    lemma_live_after(open, target_started(), LiveEventView::MarkedRunning(Ok(())));
    lemma_live_after(open, marked, LiveEventView::ObserverSpawned(Ok(())));
    lemma_live_after(open, observed, LiveEventView::Told { received: true });
    lemma_live_after(open, granted, LiveEventView::Read(read));
}

/// A target that did not take the permission to go on is stopped, and the request is answered with
/// an indeterminate outcome, which tells a stop that failed.
pub proof fn ungranted_target_is_stopped(termination: Seq<char>)
    ensures
        ({
            let ungranted = target_started().push(LiveEventView::MarkedRunning(Ok(()))).push(
                LiveEventView::ObserverSpawned(Ok(())),
            ).push(LiveEventView::Told { received: false });
            let open = LiveStepView::OpenGate;
            &&& live_after(open, ungranted) is StopUngranted
            &&& live_after(open, ungranted.push(LiveEventView::Stopped(Ok(()))))
                == LiveStepView::Done(
                Err(
                    OperatorErrorView::Indeterminate(
                        "live target stopped before Control granted durable Running permission"@,
                    ),
                ),
            )
            &&& live_after(open, ungranted.push(LiveEventView::Stopped(Err(termination))))
                == LiveStepView::Done(
                Err(
                    OperatorErrorView::Indeterminate(
                        "operation outcome is indeterminate: "@
                            + "live target stopped before Control granted durable Running permission"@
                            + "; direct live child termination failed: "@ + termination,
                    ),
                ),
            )
        }),
{
    let open = LiveStepView::OpenGate;
    let marked = target_started().push(LiveEventView::MarkedRunning(Ok(())));
    let observed = marked.push(LiveEventView::ObserverSpawned(Ok(())));
    let ungranted = observed.push(LiveEventView::Told { received: false });
    lemma_target_started();
    lemma_live_after(open, target_started(), LiveEventView::MarkedRunning(Ok(())));
    lemma_live_after(open, marked, LiveEventView::ObserverSpawned(Ok(())));
    lemma_live_after(open, observed, LiveEventView::Told { received: false });
    lemma_live_after(open, ungranted, LiveEventView::Stopped(Ok(())));
    lemma_live_after(open, ungranted, LiveEventView::Stopped(Err(termination)));
}

/// A target that did not start ends its conversation: as failed, with its session freed, where no
/// writer is left; as indeterminate, with its session kept, where one may be.
pub proof fn unstarted_target_ends_its_conversation(message: Seq<char>)
    ensures
        ({
            let open = LiveStepView::OpenGate;
            let opened = seq![LiveEventView::GateOpened(Ok(()))];
            let none = LiveEventView::TargetStarted {
                refusal: Some(TargetLiveStartErrorView::NoWriter(message)),
            };
            let exited = LiveEventView::TargetStarted {
                refusal: Some(TargetLiveStartErrorView::CleanupProvenExited(message)),
            };
            let unproven = LiveEventView::TargetStarted {
                refusal: Some(TargetLiveStartErrorView::CleanupUnproven(message)),
            };
            let failed = "live target could not start: "@ + message;
            let left = "live target startup did not prove direct-child exit: "@ + message;
            &&& live_after(open, opened.push(none)) matches LiveStepView::Finish { end, stopped }
                && end.state is Failed && end.outcome == TerminalOutcomeView::Failed(failed)
                && end.disposition is ReleaseProvenWriter && stopped
            &&& live_after(open, opened.push(exited)) matches LiveStepView::Finish { end, stopped }
                && end.state is Failed && end.outcome == TerminalOutcomeView::Failed(failed)
                && end.disposition is ReleaseProvenWriter && stopped
            &&& live_after(open, opened.push(unproven)) matches LiveStepView::Finish {
                end,
                stopped,
            } && end.state is Indeterminate && end.outcome == TerminalOutcomeView::Indeterminate(
                left,
            ) && end.disposition is RetainUnclassifiedWriter && stopped
        }),
{
    let open = LiveStepView::OpenGate;
    let event = LiveEventView::GateOpened(Ok(()));
    let opened = seq![event];
    let nothing = Seq::<LiveEventView>::empty();
    lemma_live_after(open, nothing, event);
    assert(opened =~= nothing.push(event));
    lemma_live_after(
        open,
        opened,
        LiveEventView::TargetStarted {
            refusal: Some(TargetLiveStartErrorView::NoWriter(message)),
        },
    );
    lemma_live_after(
        open,
        opened,
        LiveEventView::TargetStarted {
            refusal: Some(TargetLiveStartErrorView::CleanupProvenExited(message)),
        },
    );
    lemma_live_after(
        open,
        opened,
        LiveEventView::TargetStarted {
            refusal: Some(TargetLiveStartErrorView::CleanupUnproven(message)),
        },
    );
}

/// A target that started but could not be marked running, or is not observed, is stopped, and its
/// conversation ends as indeterminate with the reason and with its session kept.
pub proof fn unmarked_target_is_stopped(
    refusal: OperatorErrorView,
    message: Seq<char>,
    stopped: Result<(), Seq<char>>,
)
    ensures
        ({
            let open = LiveStepView::OpenGate;
            let unmarked = target_started().push(LiveEventView::MarkedRunning(Err(refusal)));
            let unobserved = target_started().push(LiveEventView::MarkedRunning(Ok(()))).push(
                LiveEventView::ObserverSpawned(Err(message)),
            );
            &&& live_after(
                open,
                unmarked.push(LiveEventView::Stopped(stopped)),
            ) matches LiveStepView::Finish { end, stopped: done } && end.state is Indeterminate
                && end.outcome == TerminalOutcomeView::Indeterminate(refusal.text())
                && end.disposition is RetainUnclassifiedWriter && done == (stopped is Ok)
            &&& live_after(
                open,
                unobserved.push(LiveEventView::Stopped(stopped)),
            ) matches LiveStepView::Finish { end, stopped: done } && end.state is Indeterminate
                && end.outcome == TerminalOutcomeView::Indeterminate(
                "state failure: "@ + ("live observation worker could not start: "@ + message),
            ) && end.disposition is RetainUnclassifiedWriter && done == (stopped is Ok)
        }),
{
    let open = LiveStepView::OpenGate;
    let unmarked = target_started().push(LiveEventView::MarkedRunning(Err(refusal)));
    let marked = target_started().push(LiveEventView::MarkedRunning(Ok(())));
    let unobserved = marked.push(LiveEventView::ObserverSpawned(Err(message)));
    lemma_target_started();
    lemma_live_after(open, target_started(), LiveEventView::MarkedRunning(Err(refusal)));
    lemma_live_after(open, unmarked, LiveEventView::Stopped(stopped));
    lemma_live_after(open, target_started(), LiveEventView::MarkedRunning(Ok(())));
    lemma_live_after(open, marked, LiveEventView::ObserverSpawned(Err(message)));
    lemma_live_after(open, unobserved, LiveEventView::Stopped(stopped));
}

/// A start that was cleaned up completely is answered with the conversation as it is read; one whose
/// cleanup failed in any part tells all three parts.
pub proof fn failed_start_tells_its_cleanup(
    step: LiveStepView,
    ended: Result<(), OperatorErrorView>,
    released: bool,
    terminal: Seq<char>,
    release: Seq<char>,
    termination: Seq<char>,
)
    requires
        step is Finish,
    ensures
        ({
            let done = live_moved(
                live_moved(step, LiveEventView::Ended(ended)),
                LiveEventView::Released {
                    released,
                    terminal_report: terminal,
                    release_report: release,
                    termination_report: termination,
                },
            );
            if step->stopped && ended is Ok && released {
                done is Snapshot
            } else {
                done == LiveStepView::Done(
                    Err(
                        OperatorErrorView::State(
                            "live startup cleanup: terminal="@ + terminal + "; runtime_release="@
                                + release + "; direct_child_termination="@ + termination,
                        ),
                    ),
                )
            }
        }),
{
}

/// A turn that the target took is answered with the conversation as it is read.
pub proof fn taken_turn_is_answered(read: Result<ConversationSnapshotView, OperatorErrorView>)
    ensures
        send_moved(
            send_moved(SendStepView::Deliver, SendEventView::Delivered(Ok(()))),
            SendEventView::Read(read),
        ) == SendStepView::Done(read),
{
}

/// A turn that the target did not take is answered with its conversation where that has ended or is
/// being cancelled; otherwise the conversation is closed, its target is cancelled, and the failure
/// is told as indeterminate, with a cancellation that failed.
pub proof fn refused_turn_cancels_its_conversation(
    failure: Seq<char>,
    snapshot: ConversationSnapshotView,
    termination: Seq<char>,
)
    ensures
        ({
            let read = send_moved(
                send_moved(SendStepView::Deliver, SendEventView::Delivered(Err(failure))),
                SendEventView::Read(Ok(snapshot)),
            );
            let conversation = snapshot.conversation;
            let over = !(conversation.state is Open) && !(conversation.state is Closing);
            if over || conversation.close_mode == Some(ConversationStopMode::Cancel) {
                read == SendStepView::Done(Ok(snapshot))
            } else {
                let closed = send_moved(read, SendEventView::Closed(Ok(())));
                &&& read is CloseRefused
                &&& closed is StopRefused
                &&& send_moved(closed, SendEventView::Stopped(Ok(()))) == SendStepView::Done(
                    Err(OperatorErrorView::Indeterminate(failure)),
                )
                &&& send_moved(closed, SendEventView::Stopped(Err(termination)))
                    == SendStepView::Done(
                    Err(
                        OperatorErrorView::Indeterminate(
                            failure + "; direct live child termination failed: "@ + termination,
                        ),
                    ),
                )
            }
        }),
{
}

/// A stop that the target was asked for is answered with the conversation as it is read; one that it
/// could not be asked for is answered with the conversation where that has ended, and is told as
/// indeterminate otherwise.
pub proof fn stop_is_answered(
    asked: TargetLiveStop,
    failure: Seq<char>,
    snapshot: ConversationSnapshotView,
    read: Result<ConversationSnapshotView, OperatorErrorView>,
)
    ensures
        stop_moved(
            stop_moved(StopStepView::Request(asked), StopEventView::Requested(Ok(()))),
            StopEventView::Read(read),
        ) == StopStepView::Done(read),
        ({
            let refused = stop_moved(
                stop_moved(StopStepView::Request(asked), StopEventView::Requested(Err(failure))),
                StopEventView::Read(Ok(snapshot)),
            );
            if snapshot.conversation.state is Open || snapshot.conversation.state is Closing {
                refused == StopStepView::Done(
                    Err(
                        OperatorErrorView::Indeterminate(
                            "live target stop request could not be observed: "@ + failure,
                        ),
                    ),
                )
            } else {
                refused == StopStepView::Done(Ok(snapshot))
            }
        }),
{
}

/// Whether a conversation has not ended.
pub open spec fn still_going(conversation: ConversationView) -> bool {
    conversation.state is Open || conversation.state is Closing
}

/// The recorder records each observation of a conversation that is going on, and waits for the next
/// one as long as it is.
pub proof fn recorder_records_what_it_observes(before: ConversationView, after: ConversationView)
    requires
        still_going(before),
        still_going(after),
    ensures
        ({
            let received = recorder_moved(
                RecorderStepView::Await,
                RecorderEventView::Observed { received: true },
            );
            let open = recorder_moved(received, RecorderEventView::Read(Ok(before)));
            let applied = recorder_moved(open, RecorderEventView::Applied(Ok(())));
            &&& open is Apply
            &&& recorder_moved(applied, RecorderEventView::Read(Ok(after))) is Await
        }),
{
}

/// The recorder of a conversation that has ended releases it and is done; it records nothing more
/// of it.
pub proof fn recorder_releases_what_has_ended(conversation: ConversationView)
    requires
        !still_going(conversation),
    ensures
        ({
            let read = RecorderEventView::Read(Ok(conversation));
            let release = recorder_moved(RecorderStepView::FinalCheck, read);
            &&& recorder_moved(RecorderStepView::CheckOpen, read) is FinalCheck
            &&& recorder_moved(RecorderStepView::CheckAfter, read) is FinalCheck
            &&& release is Release
            &&& recorder_moved(release, RecorderEventView::Released(Ok(()))) is Done
        }),
{
}

/// An observation that could not be recorded of a conversation that is going on stops its target,
/// ends it as indeterminate with the failure and with its session kept, and leaves the failure,
/// with what failed after it, to be recorded.
pub proof fn unrecorded_observation_ends_the_conversation(
    failure: OperatorErrorView,
    conversation: ConversationView,
    stopping: Seq<char>,
    ending: OperatorErrorView,
)
    requires
        still_going(conversation),
    ensures
        ({
            let failed = recorder_moved(
                RecorderStepView::Apply,
                RecorderEventView::Applied(Err(failure)),
            );
            let stop = recorder_moved(failed, RecorderEventView::Read(Ok(conversation)));
            let stopped = recorder_moved(stop, RecorderEventView::Stopped(Ok(())));
            let unstopped = recorder_moved(stop, RecorderEventView::Stopped(Err(stopping)));
            let stopping_told = failure.text() + "; direct live child termination failed: "@
                + stopping;
            &&& stop is StopTarget
            &&& stopped matches RecorderStepView::End { end, failure: told, stopped: _ }
                && end.state is Indeterminate && end.outcome == TerminalOutcomeView::Indeterminate(
                failure.text(),
            ) && end.disposition is RetainUnclassifiedWriter && told == failure
            &&& recorder_moved(stopped, RecorderEventView::Ended(Ok(())))
                == (RecorderStepView::Record { failure, tail: RecordTail::FinalCheck })
            &&& recorder_moved(stopped, RecorderEventView::Ended(Err(ending)))
                == (RecorderStepView::Record {
                failure: OperatorErrorView::State(
                    failure.text() + "; durable indeterminate transition failed: "@
                        + ending.text(),
                ),
                tail: RecordTail::FinalCheck,
            })
            &&& recorder_moved(unstopped, RecorderEventView::Ended(Ok(())))
                == (RecorderStepView::Record {
                failure: OperatorErrorView::Indeterminate(stopping_told),
                tail: RecordTail::FinalCheck,
            })
            &&& recorder_moved(unstopped, RecorderEventView::Ended(Err(ending)))
                == (RecorderStepView::Record {
                failure: OperatorErrorView::State(
                    stopping_told + "; durable indeterminate transition failed: "@ + ending.text(),
                ),
                tail: RecordTail::FinalCheck,
            })
        }),
{
}

/// A target that told nothing more of a conversation that is going on leaves it indeterminate, with
/// its session kept.
pub proof fn lost_target_leaves_its_conversation_indeterminate(conversation: ConversationView)
    requires
        still_going(conversation),
    ensures
        ({
            let lost = recorder_moved(
                RecorderStepView::Await,
                RecorderEventView::Observed { received: false },
            );
            recorder_moved(
                lost,
                RecorderEventView::Read(Ok(conversation)),
            ) matches RecorderStepView::EndLost { end } && end.state is Indeterminate && end.outcome
                == TerminalOutcomeView::Indeterminate(
                "live target observation channel ended without a terminal outcome"@,
            ) && end.disposition is RetainUnclassifiedWriter
        }),
{
}

} // verus!
