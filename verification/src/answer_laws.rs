//! What the single decisions answer, told of their arguments.

use vstd::prelude::*;
use vstd::utf8::{decode_utf8, encode_utf8, valid_utf8};

use crate::contract::control::{
    ConversationSend, ConversationSnapshot, ConversationStart, ConversationWait, Operation,
    OperationDiagnosticPayload, OperationDiagnostics, OperationDiagnosticsRequest, OperationStart,
    OperatorError, OperatorErrorView, ProjectRegistration, ReviewProfile, SessionEvidence,
    SessionEvidenceView, SessionInspectRequest, SessionInventoryRequest, TerminalOutcomeView,
};
use crate::contract::identity::{ConversationId, OperationId, ProjectId};
use crate::contract::target::{
    TargetCommand, TargetDiagnostic, TargetLiveObservation, TargetLiveTurn, TargetOutcome,
    TargetOutcomeView, PROVIDER,
};
use crate::control::admission::{ensure_fingerprint, validate_start};
use crate::control::ingress::{serving_failure, ServingFailure};
use crate::control::dispatch::OperationControl;
use crate::control::outcome_laws::{
    both_ended, exit_succeeds_with_the_last_answer, last_answer, underway,
};
use crate::control::refusal::Refusal;
use crate::control::request_laws::{evidence_in, proven_by};
use crate::control::runtime::{CancellationOutcome, Gate, RuntimeGate};
use crate::control::session_inventory;
use crate::control::{conversation, diagnostic, operation};
use crate::fixture::prompt::{
    begin_prompt, finish_prompt, PromptInput, PromptStart, NONZERO_WITHOUT_INPUT_MARKER,
    PENDING_INPUT_CANCELLATION_MARKER,
};
use crate::gateway::error::{GatewayError, GatewayErrorView};
use crate::gateway::mcp::{empty, review_profile, undecoded, McpReviewProfile};
use crate::identifier::uuid_parsed;
use crate::json::{Json, JsonView};
use crate::plain_laws::output_is_complete_up_to_its_last_newline;
use crate::state::operation::{evidence_of, evidenced};
use crate::state::session_claim;
use crate::state::tables::{Change, Tables};
use crate::target::child::{child_found, child_removed};
use crate::target::conversation::{
    close_delivered, consume_report, runtime_found, runtime_registered, runtime_removed,
    LiveAdmission,
};
use crate::target::conversation_codec::{
    Codec, CodecError, CodecErrorView, TurnEntryView, TurnPhase,
};
use crate::target::conversation_input::{running_permission, InputQueue, WriterReport};
use crate::target::execution::{
    conclude, output_unavailable, prompt_decides, PromptInput as WrittenPrompt, ReviewFailures,
};
use crate::target::output::{lines_of, utf8_refusal, OutputBuffer};
use crate::target::review_laws::undisturbed_review_succeeds;
use crate::target::stream::{self, Evidence, InterpretationError};
use crate::text::views;

verus! {

/// Whether a request is accepted, or refused as invalid in these words.
pub open spec fn accepts_or(
    answer: Result<(), OperatorError>,
    accepted: bool,
    words: Seq<char>,
) -> bool {
    if accepted {
        answer is Ok
    } else {
        answer matches Err(error) && error@ == OperatorErrorView::InvalidRequest(words)
    }
}

/// A wait ends with news, with the end of what is waited for, and with its deadline; and with
/// nothing else.
pub proof fn waits_end(
    current: Operation,
    conversation: ConversationSnapshot,
    diagnostics: OperationDiagnostics,
    deadline_passed: bool,
    for_operation: bool,
    for_conversation: bool,
    for_diagnostics: bool,
)
    requires
        call_ensures(operation::wait_ends, (&current, deadline_passed), for_operation),
        call_ensures(conversation::wait_ends, (&conversation, deadline_passed), for_conversation),
        call_ensures(diagnostic::wait_ends, (&diagnostics, deadline_passed), for_diagnostics),
    ensures
        for_operation <==> deadline_passed || !(current@.state is Accepted || current@.state
            is Running),
        for_conversation <==> deadline_passed || conversation@.events.len() > 0 || !(
        conversation@.conversation.state is Open || conversation@.conversation.state is Closing),
        for_diagnostics <==> deadline_passed || diagnostics@.diagnostics.len() > 0 || !(
        diagnostics@.operation.state is Accepted || diagnostics@.operation.state is Running),
{
}

/// A wait begins where its cursor is a durable number and its end can be represented; the cursor is
/// looked at first.
pub proof fn waits_begin(
    of_events: ConversationWait,
    of_diagnostics: OperationDiagnosticsRequest,
    representable: bool,
    events: Result<(), OperatorError>,
    diagnostics: Result<(), OperatorError>,
    bounded: Result<(), OperatorError>,
)
    requires
        call_ensures(conversation::begin_wait, (&of_events, representable), events),
        call_ensures(diagnostic::begin_wait, (&of_diagnostics, representable), diagnostics),
        call_ensures(operation::bounded_wait, (representable,), bounded),
    ensures
        accepts_or(
            events,
            of_events.after_sequence <= i64::MAX && representable,
            if of_events.after_sequence > i64::MAX {
                "conversation cursor exceeds the supported durable range"@
            } else {
                "wait duration cannot be represented"@
            },
        ),
        accepts_or(
            diagnostics,
            of_diagnostics.after_diagnostic_sequence <= i64::MAX && representable,
            if of_diagnostics.after_diagnostic_sequence > i64::MAX {
                "diagnostic cursor exceeds the supported durable range"@
            } else {
                "diagnostic wait duration cannot be represented"@
            },
        ),
        accepts_or(bounded, representable, "wait duration cannot be represented"@),
{
}

/// A request is complete with a prompt, a registration with a model, a directory and an executable,
/// and a diagnostic with a retry that is numbered within its maximum.
pub proof fn complete_requests_are_valid(
    start: OperationStart,
    opening: ConversationStart,
    send: ConversationSend,
    project: ProjectRegistration,
    payload: OperationDiagnosticPayload,
    started: Result<(), OperatorError>,
    opened: Result<(), OperatorError>,
    sent: Result<(), OperatorError>,
    registered: Result<(), OperatorError>,
    told: Result<(), OperatorError>,
)
    requires
        call_ensures(validate_start, (&start,), started),
        call_ensures(ConversationStart::validate, (&opening,), opened),
        call_ensures(ConversationSend::validate, (&send,), sent),
        call_ensures(ProjectRegistration::validate, (&project,), registered),
        call_ensures(OperationDiagnosticPayload::validate, (&payload,), told),
    ensures
        accepts_or(started, start@.prompt.len() > 0, "prompt must not be empty"@),
        accepts_or(opened, opening@.prompt.len() > 0, "prompt must not be empty"@),
        accepts_or(sent, send@.prompt.len() > 0, "prompt must not be empty"@),
        accepts_or(
            registered,
            project@.expected_opus_model.len() > 0 && project@.working_directory.len() > 0
                && project@.claude_executable.len() > 0,
            if project@.expected_opus_model.len() == 0 {
                "expected_opus_model must not be empty"@
            } else {
                "project paths must not be empty"@
            },
        ),
        accepts_or(
            told,
            payload matches OperationDiagnosticPayload::ProviderRetrying {
                attempt,
                max_retries,
                ..
            } ==> 1 <= attempt <= max_retries,
            "provider retry attempt must be within its positive maximum"@,
        ),
{
}

/// A name of a project is any text but the empty one, and is kept as it is.
pub proof fn names_are_kept(value: String, name: Result<ProjectId, OperatorError>)
    requires
        call_ensures(ProjectId::new, (value,), name),
    ensures
        value@.len() > 0 ==> (name matches Ok(project) && project@ == value@),
        value@.len() == 0 ==> (name matches Err(error) && error@
            == OperatorErrorView::InvalidRequest("project_id must not be empty"@)),
{
}

/// Content is the same exactly where its fingerprint is.
pub proof fn fingerprints_tell_content_apart(
    request: &str,
    existing: &str,
    same: Result<(), OperatorError>,
)
    requires
        call_ensures(ensure_fingerprint, (request, existing), same),
    ensures
        request@ == existing@ ==> same is Ok,
        request@ != existing@ ==> (same matches Err(error) && error@
            == OperatorErrorView::Conflict(
            "request UUID was reused with different conversation content"@,
        )),
{
}

/// While nothing was refused a waiting caller reads what is stored; after a refusal it gets that.
pub proof fn refusal_reaches_waiting_callers(
    refusal: Refusal,
    tables: Tables,
    id: OperationId,
    found: Result<Operation, OperatorError>,
)
    requires
        call_ensures(operation::poll, (&refusal, &tables, id), found),
    ensures
        refusal@ matches Some(error) ==> (found matches Err(told) && told@ == error),
        refusal@ is None && tables@.operations.contains_key(id) ==> (found matches Ok(operation)
            && operation@ == tables@.operations[id].operation),
        refusal@ is None && !tables@.operations.contains_key(id) ==> found is Err,
{
}

/// The inventory and the inspection of a registered project hold exactly the operations that
/// succeeded in their intended session with an observed model.
pub proof fn evidence_is_found(
    tables: Tables,
    request: SessionInventoryRequest,
    inspected: SessionInspectRequest,
    all: Result<Vec<SessionEvidence>, OperatorError>,
    one: Result<Vec<SessionEvidence>, OperatorError>,
    id: OperationId,
)
    requires
        call_ensures(session_inventory::inventory, (&tables, request), all),
        call_ensures(session_inventory::inspect, (&tables, inspected), one),
        tables@.projects.contains_key(request@.project_id),
        inspected@.project_id == request@.project_id,
        proven_by(tables@, request@.project_id, inspected@.target_session_id, id),
    ensures
        all matches Ok(list) && views(list@).contains(
            evidence_in(tables@.operations[id].operation),
        ),
        one matches Ok(list) && views(list@).contains(
            evidence_in(tables@.operations[id].operation),
        ),
{
    let operation = tables@.operations[id].operation;
    let evidence: SessionEvidenceView = evidence_in(operation);
    let project_id = request@.project_id;
    let session = inspected@.target_session_id;
    assert(evidence_of(operation, project_id, None) == Some(evidence));
    assert(evidence_of(operation, project_id, Some(session)) == Some(
        evidence,
    ));
    assert(evidenced(tables@, project_id, None, evidence));
    assert(evidenced(tables@, project_id, Some(session), evidence));
}

/// Why the daemon cannot serve is told with the endpoint and the reason.
pub proof fn serving_failures_are_told(
    endpoint: String,
    message: String,
    bind: OperatorError,
    accept: OperatorError,
    worker: OperatorError,
)
    requires
        call_ensures(serving_failure, (ServingFailure::Bind { endpoint, message },), bind),
        call_ensures(serving_failure, (ServingFailure::Accept { message },), accept),
        call_ensures(serving_failure, (ServingFailure::Worker { message },), worker),
    ensures
        bind@ == OperatorErrorView::TransportUnavailable(
            "daemon endpoint "@ + endpoint@ + " could not bind: "@ + message@,
        ),
        accept@ == OperatorErrorView::TransportUnavailable(
            "daemon endpoint could not accept: "@ + message@,
        ),
        worker@ == OperatorErrorView::TransportUnavailable(
            "daemon connection worker could not start: "@ + message@,
        ),
{
}

/// A stored identity of an operation is read as a UUID, and a text that is none is told.
pub proof fn stored_identities_are_read(value: String, decoded: Result<OperationId, OperatorError>)
    requires
        call_ensures(session_claim::operation_id, (value,), decoded),
    ensures
        uuid_parsed(value@) matches Ok(uuid) ==> (decoded matches Ok(id) && id.0 == uuid),
        uuid_parsed(value@) matches Err(reason) ==> (decoded matches Err(error) && error@
            == OperatorErrorView::State("active session operation id was not a UUID: "@ + reason)),
{
}

/// The prompt bears on the end of a review exactly where nothing else has decided it.
pub proof fn prompt_bears_on_undecided_reviews(
    failures: ReviewFailures,
    cancelled: bool,
    exit_success: bool,
    decides: bool,
)
    requires
        call_ensures(prompt_decides, (&failures, cancelled, exit_success), decides),
    ensures
        decides <==> exit_success && !cancelled && failures@.provider_failure is None
            && failures@.terminal_error is None,
{
}

/// Output that could not be read leaves a review indeterminate, with the reason and with a
/// termination that failed.
pub proof fn unreadable_output_is_told(
    error: String,
    refusal: String,
    stopped: TargetOutcome,
    unstopped: TargetOutcome,
)
    requires
        call_ensures(output_unavailable, (error, &Ok::<(), String>(())), stopped),
        call_ensures(output_unavailable, (error, &Err::<(), String>(refusal)), unstopped),
    ensures
        stopped@ == TargetOutcomeView::Indeterminate(error@),
        unstopped@ == TargetOutcomeView::Indeterminate(
            error@ + "; direct child could not be terminated: "@ + refusal@,
        ),
{
}

/// Whether a result is a success, or a failure in these words.
pub open spec fn succeeds_or(result: Result<(), String>, succeeds: bool, words: Seq<char>) -> bool {
    if succeeds {
        result is Ok
    } else {
        result matches Err(message) && message@ == words
    }
}

/// What became of a hand-over, a registration or a removal is told.
pub proof fn hand_overs_are_told(
    done: bool,
    closed: Result<(), String>,
    registered: Result<(), String>,
    runtime: Result<(), String>,
    child: Result<(), String>,
)
    requires
        call_ensures(close_delivered, (done,), closed),
        call_ensures(runtime_registered, (done,), registered),
        call_ensures(runtime_removed, (done,), runtime),
        call_ensures(child_removed, (done,), child),
    ensures
        succeeds_or(closed, done, "live input writer stopped before graceful close"@),
        succeeds_or(registered, done, "operation already owns a live runtime"@),
        succeeds_or(runtime, done, "live runtime disappeared before completion"@),
        succeeds_or(child, done, "direct child disappeared before execution completed"@),
{
}

/// A runtime and a child that are there are used as they are; a missing one is told.
pub proof fn missing_parts_are_told(
    value: u64,
    runtime: Result<u64, String>,
    child: Result<u64, String>,
    no_runtime: Result<u64, String>,
    no_child: Result<u64, String>,
)
    requires
        call_ensures(runtime_found::<u64>, (Some(value),), runtime),
        call_ensures(child_found::<u64>, (Some(value),), child),
        call_ensures(runtime_found::<u64>, (None,), no_runtime),
        call_ensures(child_found::<u64>, (None,), no_child),
    ensures
        runtime == Ok::<u64, String>(value),
        child == Ok::<u64, String>(value),
        no_runtime matches Err(message) && message@ == "live runtime is not active"@,
        no_child matches Err(message) && message@ == "direct child is not active"@,
{
}

/// A writer begins only with the permission; a refused one tells why, and a lost one too.
pub proof fn writer_needs_the_permission(
    reason: String,
    granted: Result<(), String>,
    refused: Result<(), String>,
    lost: Result<(), String>,
)
    requires
        call_ensures(running_permission, (Some(Ok::<(), String>(())),), granted),
        call_ensures(running_permission, (Some(Err::<(), String>(reason)),), refused),
        call_ensures(running_permission, (None,), lost),
    ensures
        granted is Ok,
        refused matches Err(message) && message@ == reason@,
        lost matches Err(message) && message@
            == "Control did not grant durable Running permission to the live child"@,
{
}

/// Arguments that are missing or could not be decoded are refused, and so are arguments where none
/// are taken.
pub proof fn undecoded_arguments_are_refused(
    message: String,
    count: usize,
    missing: GatewayError,
    invalid: GatewayError,
    counted: Result<(), GatewayError>,
    uncounted: Result<(), GatewayError>,
    profile: ReviewProfile,
)
    requires
        call_ensures(undecoded, (None,), missing),
        call_ensures(undecoded, (Some(message),), invalid),
        call_ensures(empty, (Some(count),), counted),
        call_ensures(empty, (None,), uncounted),
        call_ensures(review_profile, (McpReviewProfile::OpusReadOnly,), profile),
    ensures
        missing@ == (GatewayErrorView::InvalidArguments {
            message: "tool arguments are required"@,
        }),
        invalid@ == (GatewayErrorView::InvalidArguments {
            message: "tool arguments were invalid: "@ + message@,
        }),
        counted is Ok <==> count == 0,
        uncounted is Ok,
        profile is OpusReadOnly,
{
}

/// A prompt that begins with a mark is not read further; any other one is a text, which must be
/// valid and must not be empty when it is complete.
pub proof fn prompts_are_read_up_to_a_mark(
    prefix: Vec<u8>,
    partial: String,
    rest: &str,
    begun: Result<PromptStart, String>,
    finished: Result<PromptInput, String>,
)
    requires
        call_ensures(begin_prompt, (prefix,), begun),
        call_ensures(finish_prompt, (partial, rest), finished),
    ensures
        ({
            let pending = encode_utf8(PENDING_INPUT_CANCELLATION_MARKER@).is_prefix_of(prefix@);
            let failing = encode_utf8(NONZERO_WITHOUT_INPUT_MARKER@).is_prefix_of(prefix@);
            if pending {
                begun matches Ok(PromptStart::Marked(input)) && input is PendingInputCancellation
            } else if failing {
                begun matches Ok(PromptStart::Marked(input)) && input is NonzeroWithoutInput
            } else if valid_utf8(prefix@) {
                begun matches Ok(PromptStart::Partial(text)) && text@ == decode_utf8(prefix@)
            } else {
                begun is Err
            }
        }),
        if partial@.len() + rest@.len() > 0 {
            finished matches Ok(PromptInput::Complete(prompt)) && prompt@ == partial@ + rest@
        } else {
            finished matches Err(message) && message@ == "prompt stdin was empty"@
        },
{
}

/// Only the first refusal is kept, and of what a caller hands over only a failure of durable state.
pub proof fn first_refusal_is_kept(error: OperatorError)
    ensures
        forall|refusal: &mut Refusal| #[trigger]
            call_ensures(Refusal::record, (refusal, error), ()) ==> if refusal@ is None {
                final(refusal)@ == Some(error@)
            } else {
                final(refusal)@ == refusal@
            },
        forall|refusal: &mut Refusal| #[trigger]
            call_ensures(Refusal::record_state, (refusal, &error), ()) ==> if refusal@ is None
                && error@ is State {
                final(refusal)@ == Some(error@)
            } else {
                final(refusal)@ == refusal@
            },
{
}

/// A gate is opened unsignalled, signalled by a cancellation, and removed by a release; every other
/// gate stays as it is. A gate that is opened twice, and one that is missing, are told.
pub proof fn gates_are_opened_signalled_and_released(
    id: OperationId,
    opened: Result<(), OperatorError>,
    outcome: CancellationOutcome,
    released: Result<(), OperatorError>,
)
    ensures
        forall|gates: &mut RuntimeGate| #[trigger]
            call_ensures(RuntimeGate::open, (gates, id), opened) ==> final(gates)@ == gates@.insert(
                id,
                Gate { operation_id: id, signalled: false },
            ) && (opened is Ok <==> !gates@.contains_key(id)) && (opened matches Err(error)
                ==> error@ == OperatorErrorView::State("operation runtime gate already exists"@)),
        forall|gates: &mut RuntimeGate| #[trigger]
            call_ensures(RuntimeGate::cancel, (gates, id), outcome) ==> if gates@.contains_key(id) {
                outcome is Signalled && final(gates)@ == gates@.insert(
                    id,
                    Gate { operation_id: id, signalled: true },
                )
            } else {
                outcome is GateAbsent && final(gates)@ == gates@
            },
        forall|gates: &mut RuntimeGate| #[trigger]
            call_ensures(RuntimeGate::release, (gates, id), released) ==> final(gates)@
                == gates@.remove(id) && (released is Ok <==> gates@.contains_key(id)) && (
            released matches Err(error) ==> error@ == OperatorErrorView::State(
                "operation runtime gate disappeared"@,
            )),
{
}

/// An operation was cancelled exactly where it has a gate that is signalled.
pub proof fn signalled_gates_are_seen(gates: RuntimeGate, id: OperationId, cancelled: bool)
    requires
        call_ensures(RuntimeGate::cancelled, (&gates, id), cancelled),
    ensures
        cancelled <==> gates@.contains_key(id) && gates@[id].signalled,
{
}

/// A diagnostic that could not be recorded signals its operation, and refuses later requests where
/// durable state failed.
pub proof fn unrecorded_diagnostic_ends_its_review(id: OperationId, error: OperatorError)
    ensures
        forall|control: &mut OperationControl| #[trigger]
            call_ensures(OperationControl::diagnostic_unrecorded, (control, id, &error), ())
                ==> {
                let before = control.runtime@;
                let after = final(control).runtime@;
                &&& final(control).refusal@ == (if control.refusal@ is None && error@ is State {
                    Some(error@)
                } else {
                    control.refusal@
                })
                &&& before.contains_key(id) ==> after.contains_key(id) && after[id].signalled
                &&& forall|other: OperationId| #[trigger]
                    before.contains_key(other) && other != id ==> after.contains_key(other)
                        && after[other] == before[other]
            },
{
}

/// What went wrong in a review is kept in its own words: a failure of the provider as such, and
/// everything else as what disturbed the observation, with a termination that failed.
pub proof fn failures_of_a_review_are_kept(message: String, refusal: String)
    ensures
        forall|failures: &mut ReviewFailures| #[trigger]
            call_ensures(ReviewFailures::failed, (failures, message), ()) ==> {
                &&& final(failures)@.terminal_error == Some(message@)
                &&& final(failures)@.provider_failure == failures@.provider_failure
            },
        forall|failures: &mut ReviewFailures| #[trigger]
            call_ensures(
                ReviewFailures::observation_failed,
                (failures, message, &Err::<(), String>(refusal)),
                (),
            ) ==> {
                &&& final(failures)@.terminal_error == Some(
                    message@ + "; direct-child termination failed: "@ + refusal@,
                )
                &&& final(failures)@.provider_failure == failures@.provider_failure
            },
        forall|failures: &mut ReviewFailures| #[trigger]
            call_ensures(
                ReviewFailures::interpretation_failed,
                (
                    failures,
                    InterpretationError::ProviderFailure(message),
                    &Ok::<(), String>(()),
                ),
                (),
            ) ==> {
                &&& final(failures)@.provider_failure == Some(message@)
                &&& final(failures)@.terminal_error == failures@.terminal_error
            },
        forall|failures: &mut ReviewFailures| #[trigger]
            call_ensures(
                ReviewFailures::last_interpretation_failed,
                (failures, InterpretationError::ProviderFailure(message)),
                (),
            ) ==> {
                &&& final(failures)@.provider_failure == Some(message@)
                &&& final(failures)@.terminal_error == failures@.terminal_error
            },
        forall|failures: &mut ReviewFailures| #[trigger]
            call_ensures(
                ReviewFailures::last_interpretation_failed,
                (failures, InterpretationError::Ambiguous(message)),
                (),
            ) ==> {
                &&& final(failures)@.terminal_error == Some(message@)
                &&& final(failures)@.provider_failure == failures@.provider_failure
            },
{
}

/// The position moves on by one after each turn that was written, and no further than it can count.
pub proof fn positions_move_on_by_one(moved: Result<(), String>)
    ensures
        forall|queue: &mut InputQueue| #[trigger]
            call_ensures(InputQueue::written, (queue,), moved) ==> {
                let before = queue@;
                let after = final(queue)@;
                &&& after.pending == before.pending
                &&& after.close_through == before.close_through
                &&& if before.next_position < u64::MAX {
                    moved is Ok && after.next_position == before.next_position + 1
                } else {
                    after.next_position == before.next_position && (moved matches Err(message)
                        && message@ == "live turn position is exhausted"@)
                }
            },
{
}

/// A turn that did not reach the writer leaves the delivery in doubt for good, and a cancellation is
/// remembered and counted once; the turns stay as they are.
pub proof fn doubt_and_cancellation_are_remembered(delivered: Result<(), String>, first: bool)
    ensures
        forall|admission: &mut LiveAdmission| #[trigger]
            call_ensures(LiveAdmission::delivered, (admission, false), delivered) ==> {
                &&& final(admission)@.broken
                &&& final(admission)@.turns == admission@.turns
                &&& delivered matches Err(message) && message@
                    == "live input writer stopped after accepting a turn"@
            },
        forall|admission: &mut LiveAdmission| #[trigger]
            call_ensures(LiveAdmission::delivered, (admission, true), delivered) ==> {
                &&& final(admission)@ == admission@
                &&& delivered is Ok
            },
        forall|admission: &mut LiveAdmission| #[trigger]
            call_ensures(LiveAdmission::cancel, (admission,), first) ==> {
                &&& final(admission)@.cancelled
                &&& final(admission)@.turns == admission@.turns
                &&& final(admission)@.graceful_through == admission@.graceful_through
                &&& first == !admission@.cancelled
            },
{
}

/// A turn that the writer prepared is registered as waiting for its queue, once; the end of the
/// input changes nothing, and a failure of the writer is told.
pub proof fn reports_of_the_writer_are_consumed(
    turn: TargetLiveTurn,
    message: String,
    consumed: Result<(), CodecError>,
)
    ensures
        forall|codec: &mut Codec| #[trigger]
            call_ensures(consume_report, (codec, WriterReport::Prepared(turn)), consumed) ==> {
                &&& final(codec)@.initialized == codec@.initialized
                &&& final(codec)@.turns == codec@.turns.insert(
                    turn@.turn_id,
                    TurnEntryView { turn: turn@, phase: TurnPhase::AwaitingQueue, result: None },
                )
                &&& consumed is Ok <==> !codec@.turns.contains_key(turn@.turn_id)
                &&& consumed matches Err(error) ==> error@ == CodecErrorView::Indeterminate(
                    "provider input reported a duplicate turn UUID"@,
                )
            },
        forall|codec: &mut Codec| #[trigger]
            call_ensures(consume_report, (codec, WriterReport::Closed), consumed) ==> final(codec)@
                == codec@ && consumed is Ok,
        forall|codec: &mut Codec| #[trigger]
            call_ensures(consume_report, (codec, WriterReport::Failed(message)), consumed) ==> {
                &&& final(codec)@ == codec@
                &&& consumed matches Err(error) && error@ == CodecErrorView::Indeterminate(
                    message@,
                )
            },
{
}

/// A review is concluded as a success with exactly its result where nothing disturbed it, its child
/// exited well after it took the prompt, and the evidence names the intended session and the
/// expected model; whatever the child wrote to its standard error.
pub proof fn undisturbed_review_is_concluded_well(
    failures: ReviewFailures,
    evidence: Evidence,
    command: TargetCommand,
    stderr: &str,
    result: Seq<char>,
    outcome: TargetOutcome,
)
    requires
        call_ensures(
            conclude,
            (failures, false, true, WrittenPrompt::Written, evidence, &command, stderr),
            outcome,
        ),
        failures@.provider_failure is None,
        failures@.terminal_error is None,
        evidence@.init_session == Some(command@.session_id),
        evidence@.init_model == Some(command@.expected_model),
        evidence@.result == Some(result),
    ensures
        outcome@ matches TargetOutcomeView::Success(success) && success.result == result
            && success.observed_session_id == command@.session_id && success.observed_model
            == command@.expected_model && success.observed_version == evidence@.version,
{
    undisturbed_review_succeeds(failures@, evidence@, command@, stderr@, result);
}

/// The exit of a target that is accepted ends its conversation and the operation of it with the
/// result of a turn after which no turn has one.
pub proof fn accepted_exit_tells_the_last_answer(
    tables: Tables,
    id: ConversationId,
    changes: Vec<Change>,
)
    requires
        tables@.consistent(),
        underway(tables@, id),
        call_ensures(
            conversation::apply_observation,
            (&tables, id, TargetLiveObservation::Exited),
            Ok::<Vec<Change>, OperatorError>(changes),
        ),
    ensures
        exists|i: int, result: Seq<char>| #[trigger]
            last_answer(tables@.conversations[id].turns, i, result) && both_ended(
                tables@.after_all(views(changes@)),
                id,
                TerminalOutcomeView::Succeeded(result),
            ),
{
    exit_succeeds_with_the_last_answer(tables@, id);
}

/// A retry that an event tells is told with exactly its numbers whenever it is numbered from one and
/// within its own maximum.
pub proof fn retries_are_told_with_their_numbers(
    event: Json,
    attempt: u64,
    max_retries: u64,
    retry_delay_ms: u64,
    told: Option<TargetDiagnostic>,
)
    requires
        call_ensures(stream::diagnostic, (&event,), told),
        event@.member("type"@) == Some(JsonView::Text("system"@)),
        event@.member("subtype"@) == Some(JsonView::Text("api_retry"@)),
        event@.member("attempt"@) == Some(JsonView::Number(Some(attempt))),
        event@.member("max_retries"@) == Some(JsonView::Number(Some(max_retries))),
        event@.member("retry_delay_ms"@) == Some(JsonView::Number(Some(retry_delay_ms))),
        1 <= attempt <= max_retries,
    ensures
        told == Some(
            TargetDiagnostic::ProviderRetrying { attempt, max_retries, retry_delay_ms },
        ),
{
}

/// Output is kept in the order in which it was received, the standard error apart from the rest, and
/// what follows the last newline stays when the complete lines are taken.
pub proof fn output_is_kept_in_order(
    bytes: &[u8],
    complete: Seq<u8>,
    rest: Seq<u8>,
    taken: Result<Vec<String>, String>,
)
    requires
        forall|i: int| 0 <= i < rest.len() ==> #[trigger] rest[i] != 10u8,
    ensures
        forall|buffer: &mut OutputBuffer| #[trigger]
            call_ensures(OutputBuffer::receive_stdout, (buffer, bytes), ()) ==> {
                &&& final(buffer).pending() == buffer.pending() + bytes@
                &&& final(buffer).errors() == buffer.errors()
            },
        forall|buffer: &mut OutputBuffer| #[trigger]
            call_ensures(OutputBuffer::receive_stderr, (buffer, bytes), ()) ==> {
                &&& final(buffer).errors() == buffer.errors() + bytes@
                &&& final(buffer).pending() == buffer.pending()
            },
        forall|buffer: &mut OutputBuffer| #[trigger]
            call_ensures(OutputBuffer::take_stdout_lines, (buffer,), taken) && buffer.pending()
                == complete.push(10u8) + rest ==> {
                &&& final(buffer).pending() == rest
                &&& final(buffer).errors() == buffer.errors()
                &&& taken is Ok <==> valid_utf8(complete.push(10u8))
                &&& taken matches Ok(lines) ==> views(lines@) == lines_of(
                    decode_utf8(complete.push(10u8)),
                )
                &&& taken matches Err(message) ==> message@ == PROVIDER@
                    + " stdout was not UTF-8 stream JSON: "@ + utf8_refusal(complete.push(10u8))
            },
{
    output_is_complete_up_to_its_last_newline(complete, rest);
    let whole = complete.push(10u8) + rest;
    let length = complete.len() as int + 1;
    assert(whole.take(length) =~= complete.push(10u8));
    assert(whole.skip(length) =~= rest);
}

} // verus!
