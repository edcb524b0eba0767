//! In which words the output of the provider is refused, and a review is explained.

use vstd::prelude::*;

use crate::contract::target::{
    TargetCommandView, TargetLiveObservationView, TargetOutcomeView, TargetSessionId, TargetTurnId,
    PROVIDER,
};
use crate::identifier::{uuid_parsed, uuid_text};
use crate::json::{json_parsed, JsonView};
use crate::target::conversation::output_consumed;
use crate::target::conversation_codec::{
    observed_line, CodecErrorView, CodecView,
};
use crate::target::execution::{
    review_advanced, review_concluded, PromptInputView, ReviewEventView, ReviewFailuresView,
    ReviewStepView,
};
use crate::target::live_laws::{about_a_turn, names_turn, works_on};
use crate::target::review_laws::{names_session, says};
use crate::target::stream::{EvidenceView, InterpretationErrorView};
use crate::target::watch::line_interpreted;

verus! {

/// Whether an event is refused in these words and changes nothing.
pub open spec fn refused_as(
    codec: CodecView,
    event: JsonView,
    model: Seq<char>,
    session: TargetSessionId,
    words: Seq<char>,
) -> bool {
    observed_line(codec, Ok(event), model, session) == (
        codec,
        Err::<Seq<TargetLiveObservationView>, _>(CodecErrorView::Indeterminate(words)),
    )
}

/// Whether a line ends a review as ambiguous in these words and changes no evidence.
pub open spec fn ambiguous_as(
    evidence: EvidenceView,
    event: JsonView,
    line: Seq<char>,
    command: TargetCommandView,
    words: Seq<char>,
) -> bool {
    json_parsed(line) == Ok::<_, Seq<char>>(event) ==> line_interpreted(
        evidence,
        line,
        command,
    ).0 == evidence && line_interpreted(evidence, line, command).1 == Err::<(), _>(
        InterpretationErrorView::Ambiguous(words),
    )
}

/// The kinds of events and of states that are told apart.
proof fn lemma_kinds()
    ensures
        "system"@ != "command_lifecycle"@,
        "system"@ != "user"@,
        "system"@ != "assistant"@,
        "system"@ != "stream_event"@,
        "system"@ != "result"@,
        "command_lifecycle"@ != "user"@,
        "command_lifecycle"@ != "assistant"@,
        "command_lifecycle"@ != "stream_event"@,
        "command_lifecycle"@ != "result"@,
        "user"@ != "assistant"@,
        "user"@ != "stream_event"@,
        "user"@ != "result"@,
        "assistant"@ != "stream_event"@,
        "assistant"@ != "result"@,
        "stream_event"@ != "result"@,
        "queued"@ != "started"@,
        "queued"@ != "completed"@,
        "started"@ != "completed"@,
{
    reveal_strlit("system");
    reveal_strlit("command_lifecycle");
    reveal_strlit("user");
    reveal_strlit("assistant");
    reveal_strlit("stream_event");
    reveal_strlit("result");
    reveal_strlit("queued");
    reveal_strlit("started");
    reveal_strlit("completed");
    assert("system"@[0] != "result"@[0]);
    assert("system"@.len() == 6 && "command_lifecycle"@.len() == 17 && "user"@.len() == 4);
    assert("assistant"@.len() == 9 && "stream_event"@.len() == 12 && "result"@.len() == 6);
    assert("queued"@.len() == 6 && "started"@.len() == 7 && "completed"@.len() == 9);
}

/// An initialization says which member it lacks, which session or model it names instead of the
/// intended one, or that it contradicts an earlier one; to a review and to a conversation alike.
pub proof fn initialization_is_refused_in_words(
    codec: CodecView,
    evidence: EvidenceView,
    event: JsonView,
    line: Seq<char>,
    command: TargetCommandView,
)
    requires
        says(event, "type"@, "system"@),
        says(event, "subtype"@, "init"@),
    ensures
        ({
            let model = command.expected_model;
            let session = command.session_id;
            let told = |words: Seq<char>|
                refused_as(codec, event, model, session, words) && ambiguous_as(
                    evidence,
                    event,
                    line,
                    command,
                    words,
                );
            match event.member("session_id"@) {
                Some(JsonView::Text(text)) => match uuid_parsed(text) {
                    Err(reason) => told(
                        PROVIDER@ + " "@ + "init"@ + " "@ + "session_id"@ + " was not a UUID: "@
                            + reason,
                    ),
                    Ok(observed) => match event.member("model"@) {
                        Some(JsonView::Text(other)) => if observed != session.0 {
                            ambiguous_as(
                                evidence,
                                event,
                                line,
                                command,
                                PROVIDER@ + " init session mismatch: intended "@ + uuid_text(
                                    session.0,
                                ) + "; observed "@ + uuid_text(observed),
                            ) && refused_as(
                                codec,
                                event,
                                model,
                                session,
                                PROVIDER@ + " "@ + "init"@ + " session mismatch: intended "@
                                    + uuid_text(session.0) + "; observed "@ + uuid_text(observed),
                            )
                        } else {
                            other != model ==> told(
                                PROVIDER@ + " init model mismatch: intended "@ + model
                                    + "; observed "@ + other,
                            )
                        },
                        _ => told(PROVIDER@ + " "@ + "init"@ + " omitted "@ + "model"@),
                    },
                },
                _ => told(PROVIDER@ + " "@ + "init"@ + " omitted "@ + "session_id"@),
            }
        }),
{
    lemma_kinds();
    reveal_strlit("init");
    reveal_strlit("api_retry");
    assert("init"@.len() != "api_retry"@.len());
}

/// A repeated initialization that differs from the first contradicts it.
pub proof fn contradicting_initialization_is_refused_in_words(
    codec: CodecView,
    event: JsonView,
    model: Seq<char>,
    session: TargetSessionId,
)
    requires
        says(event, "type"@, "system"@),
        says(event, "subtype"@, "init"@),
        names_session(event, session),
        says(event, "model"@, model),
        codec.initialized matches Some(known) && (known.session_id != session || known.model
            != model || known.version != (match event.member("claude_code_version"@) {
            Some(JsonView::Text(text)) => Some(text),
            _ => None,
        })),
    ensures
        refused_as(
            codec,
            event,
            model,
            session,
            PROVIDER@ + " init contradicted prior live conversation identity"@,
        ),
{
}

/// A step in the life of a known turn that does not follow from its phase is refused in words that
/// name the step and the turn; a second start says so, and an unknown step is named.
pub proof fn lifecycle_is_refused_in_words(
    codec: CodecView,
    event: JsonView,
    model: Seq<char>,
    session: TargetSessionId,
    turn_id: TargetTurnId,
    state: Seq<char>,
    busy: TargetTurnId,
)
    requires
        says(event, "type"@, "command_lifecycle"@),
        names_session(event, session),
        names_turn(event, "command_uuid"@, turn_id),
        says(event, "state"@, state),
    ensures
        ({
            let phase = codec.turns[turn_id].phase;
            let known = codec.turns.contains_key(turn_id);
            let free = forall|other: TargetTurnId| #[trigger]
                codec.turns.contains_key(other) ==> !(codec.turns[other].phase is Started) && !(
                codec.turns[other].phase is ResultObserved);
            let contradiction = PROVIDER@ + " lifecycle "@ + state
                + " contradicted turn TargetTurnId("@ + uuid_text(turn_id.0) + ") phase"@;
            &&& state == "started"@ && codec.turns.contains_key(busy) && (codec.turns[busy].phase
                is Started || codec.turns[busy].phase is ResultObserved) ==> refused_as(
                codec,
                event,
                model,
                session,
                PROVIDER@ + " started a live turn while another turn was active"@,
            )
            &&& !known && (state != "started"@ || free) ==> refused_as(
                codec,
                event,
                model,
                session,
                PROVIDER@ + " event referenced an unknown live turn UUID"@,
            )
            &&& known && state == "queued"@ && !(phase is AwaitingQueue) ==> refused_as(
                codec,
                event,
                model,
                session,
                contradiction,
            )
            &&& known && state == "started"@ && free && !(phase is Queued) ==> refused_as(
                codec,
                event,
                model,
                session,
                contradiction,
            )
            &&& known && state == "completed"@ && !(phase is ResultObserved) ==> refused_as(
                codec,
                event,
                model,
                session,
                contradiction,
            )
            &&& known && state == "completed"@ && phase is ResultObserved
                && codec.turns[turn_id].result is None ==> refused_as(
                codec,
                event,
                model,
                session,
                PROVIDER@ + " completed a live turn without a matching result"@,
            )
            &&& known && state != "queued"@ && state != "started"@ && state != "completed"@
                ==> refused_as(
                codec,
                event,
                model,
                session,
                PROVIDER@ + " lifecycle state is unsupported: "@ + state,
            )
        }),
{
    lemma_kinds();
    if codec.turns.contains_key(busy) && (codec.turns[busy].phase is Started
        || codec.turns[busy].phase is ResultObserved) {
        assert(codec.active(busy));
    }
    if codec.has_active() {
        let other = choose|other: TargetTurnId| #[trigger] codec.active(other);
        assert(codec.turns.contains_key(other));
    }
}

/// The name by which a kind of event that is about a turn is told.
pub open spec fn told_as(event: JsonView) -> Seq<char> {
    if says(event, "type"@, "user"@) {
        "replayed user"@
    } else if says(event, "type"@, "assistant"@) {
        "assistant"@
    } else if says(event, "type"@, "result"@) {
        "result"@
    } else {
        "partial assistant"@
    }
}

/// An event about a turn before the initialization, or of another session or of none, is refused in
/// words that say so.
pub proof fn turn_event_is_refused_in_words(
    codec: CodecView,
    event: JsonView,
    model: Seq<char>,
    session: TargetSessionId,
)
    requires
        about_a_turn(event),
    ensures
        if codec.initialized is None {
            refused_as(
                codec,
                event,
                model,
                session,
                PROVIDER@ + " emitted a live turn event before exact initialization"@,
            )
        } else {
            match event.member("session_id"@) {
                Some(JsonView::Text(text)) => match uuid_parsed(text) {
                    Ok(observed) => observed != session.0 ==> refused_as(
                        codec,
                        event,
                        model,
                        session,
                        PROVIDER@ + " "@ + told_as(event) + " session mismatch: intended "@
                            + uuid_text(session.0) + "; observed "@ + uuid_text(observed),
                    ),
                    Err(reason) => refused_as(
                        codec,
                        event,
                        model,
                        session,
                        PROVIDER@ + " "@ + told_as(event) + " "@ + "session_id"@
                            + " was not a UUID: "@ + reason,
                    ),
                },
                _ => refused_as(
                    codec,
                    event,
                    model,
                    session,
                    PROVIDER@ + " "@ + told_as(event) + " omitted "@ + "session_id"@,
                ),
            }
        },
{
    lemma_kinds();
}

/// A replay of another turn or prompt, or outside the life of its turn, is refused in words that say
/// which.
pub proof fn replay_is_refused_in_words(
    codec: CodecView,
    event: JsonView,
    model: Seq<char>,
    session: TargetSessionId,
    turn_id: TargetTurnId,
    message: JsonView,
    blocks: Seq<JsonView>,
)
    requires
        codec.initialized is Some,
        says(event, "type"@, "user"@),
        names_session(event, session),
        event.member("isReplay"@) == Some(JsonView::Bool(true)),
        names_turn(event, "uuid"@, turn_id),
        event.member("message"@) == Some(message),
        message is Object,
        message.member("content"@) == Some(JsonView::Array(blocks)),
    ensures
        ({
            let told = |words: Seq<char>| refused_as(codec, event, model, session, words);
            if blocks.len() != 1 {
                told(PROVIDER@ + " replayed user message must contain exactly one text block"@)
            } else if !(blocks[0] is Object) {
                told(PROVIDER@ + " replayed user text block was malformed"@)
            } else if !says(blocks[0], "type"@, "text"@) {
                told(PROVIDER@ + " replayed user content block was not text"@)
            } else {
                match blocks[0].member("text"@) {
                    Some(JsonView::Text(prompt)) => if !codec.turns.contains_key(turn_id) {
                        told(PROVIDER@ + " event referenced an unknown live turn UUID"@)
                    } else if codec.turns[turn_id].turn.prompt != prompt {
                        told(
                            PROVIDER@ + " replayed user prompt differed from the admitted turn"@,
                        )
                    } else {
                        !(codec.turns[turn_id].phase is Queued) && !(codec.turns[turn_id].phase
                            is Started) ==> told(
                            PROVIDER@ + " replayed user prompt outside the turn lifecycle"@,
                        )
                    },
                    _ => told(PROVIDER@ + " replayed user text was absent"@),
                }
            }
        }),
{
    lemma_kinds();
}

/// A user event that is neither a replay nor a well-formed tool result is refused in words that say
/// what it lacks.
pub proof fn tool_result_is_refused_in_words(
    codec: CodecView,
    event: JsonView,
    model: Seq<char>,
    session: TargetSessionId,
    identity: TargetTurnId,
    message: JsonView,
    blocks: Seq<JsonView>,
    worked_on: TargetTurnId,
)
    requires
        codec.initialized is Some,
        says(event, "type"@, "user"@),
        names_session(event, session),
        event.member("isReplay"@) != Some(JsonView::Bool(true)),
        names_turn(event, "uuid"@, identity),
        event.member("message"@) == Some(message),
        message is Object,
        message.member("content"@) == Some(JsonView::Array(blocks)),
        works_on(codec, worked_on),
    ensures
        ({
            let told = |words: Seq<char>| refused_as(codec, event, model, session, words);
            if event.member("isReplay"@) is Some {
                told(
                    PROVIDER@
                        + " user event is neither an exact caller replay nor a provider tool result"@,
                )
            } else if codec.turns.contains_key(identity) {
                told(PROVIDER@ + " tool result reused an admitted caller turn UUID"@)
            } else if blocks.len() != 1 {
                told(
                    PROVIDER@ + " tool result message must contain exactly one tool_result block"@,
                )
            } else if !(blocks[0] is Object) {
                told(PROVIDER@ + " tool result block was malformed"@)
            } else if !says(blocks[0], "type"@, "tool_result"@) {
                told(PROVIDER@ + " provider user event was not a tool_result"@)
            } else if !(blocks[0].member("content"@) matches Some(JsonView::Text(_))) {
                told(PROVIDER@ + " tool result content was not a string"@)
            } else if blocks[0].member("is_error"@) is Some && blocks[0].member("is_error"@)
                != Some(JsonView::Bool(true)) {
                told(PROVIDER@ + " tool result is_error must be absent or true"@)
            } else {
                !(blocks[0].member("tool_use_id"@) matches Some(JsonView::Text(_))) ==> told(
                    PROVIDER@ + " tool result omitted tool_use_id"@,
                )
            }
        }),
{
    lemma_kinds();
    lemma_sole(codec, worked_on);
}

/// The one turn that is worked on.
proof fn lemma_sole(codec: CodecView, turn_id: TargetTurnId)
    requires
        works_on(codec, turn_id),
    ensures
        codec.sole_started() == Ok::<_, Seq<char>>(turn_id),
{
    assert(codec.started(turn_id));
    assert forall|other: TargetTurnId| #[trigger] codec.started(other) implies other == turn_id by {
        assert(codec.turns.contains_key(other));
    }
}

/// An event that needs one turn to be worked on is refused in words that say whether there was none
/// or more than one.
pub proof fn turn_event_needs_one_turn_in_words(
    codec: CodecView,
    event: JsonView,
    model: Seq<char>,
    session: TargetSessionId,
    left: TargetTurnId,
    right: TargetTurnId,
)
    requires
        codec.initialized is Some,
        names_session(event, session),
        says(event, "type"@, "assistant"@) || says(event, "type"@, "result"@),
    ensures
        (forall|id: TargetTurnId| #[trigger]
            codec.turns.contains_key(id) ==> !(codec.turns[id].phase is Started)) ==> refused_as(
            codec,
            event,
            model,
            session,
            PROVIDER@ + " provider event had no uniquely started turn"@,
        ),
        left != right && codec.turns.contains_key(left) && codec.turns.contains_key(right)
            && codec.turns[left].phase is Started && codec.turns[right].phase is Started
            ==> refused_as(
            codec,
            event,
            model,
            session,
            PROVIDER@ + " provider event had more than one started turn"@,
        ),
{
    lemma_kinds();
    if forall|id: TargetTurnId| #[trigger]
        codec.turns.contains_key(id) ==> !(codec.turns[id].phase is Started) {
        assert forall|id: TargetTurnId| !#[trigger] codec.started(id) by {
            if codec.started(id) {
                assert(codec.turns.contains_key(id));
            }
        }
    }
    if left != right && codec.turns.contains_key(left) && codec.turns.contains_key(right)
        && codec.turns[left].phase is Started && codec.turns[right].phase is Started {
        assert(codec.started(left) && codec.started(right));
    }
}

/// A result without its flag or its text is refused in words that say which.
pub proof fn result_is_refused_in_words(
    codec: CodecView,
    evidence: EvidenceView,
    event: JsonView,
    line: Seq<char>,
    command: TargetCommandView,
    turn_id: TargetTurnId,
)
    requires
        codec.initialized is Some,
        says(event, "type"@, "result"@),
        names_session(event, command.session_id),
        works_on(codec, turn_id),
    ensures
        ({
            let told = |words: Seq<char>|
                refused_as(codec, event, command.expected_model, command.session_id, words);
            let unclear = |words: Seq<char>| ambiguous_as(evidence, event, line, command, words);
            match (event.member("is_error"@), event.member("result"@)) {
                (Some(JsonView::Bool(true)), Some(JsonView::Text(_))) => true,
                (Some(JsonView::Bool(true)), _) => {
                    &&& told(PROVIDER@ + " failed result omitted result"@)
                    &&& json_parsed(line) == Ok::<_, Seq<char>>(event) ==> line_interpreted(
                        evidence,
                        line,
                        command,
                    ).1 == Err::<(), _>(
                        InterpretationErrorView::ProviderFailure(
                            PROVIDER@ + " terminal failure omitted result text"@,
                        ),
                    )
                },
                (Some(JsonView::Bool(false)), Some(JsonView::Text(_))) => true,
                (Some(JsonView::Bool(false)), _) => told(PROVIDER@ + " result omitted result"@)
                    && unclear(PROVIDER@ + " result omitted review text"@),
                _ => told(PROVIDER@ + " result omitted is_error"@) && unclear(
                    PROVIDER@ + " result omitted is_error"@,
                ),
            }
        }),
        event.member("is_error"@) == Some(JsonView::Bool(true)) && event.member("result"@) == Some(
            JsonView::Text(Seq::empty()),
        ) && json_parsed(line) == Ok::<_, Seq<char>>(event) ==> line_interpreted(
            evidence,
            line,
            command,
        ).1 == Err::<(), _>(
            InterpretationErrorView::ProviderFailure(
                PROVIDER@ + " terminal failure result was empty"@,
            ),
        ),
{
    lemma_kinds();
    lemma_sole(codec, turn_id);
}

/// The result of a review that names another session is ambiguous in words that say so.
pub proof fn result_of_another_session_is_told(
    evidence: EvidenceView,
    event: JsonView,
    line: Seq<char>,
    command: TargetCommandView,
    text: Seq<char>,
    observed: u128,
)
    requires
        says(event, "type"@, "result"@),
        says(event, "session_id"@, text),
        uuid_parsed(text) == Ok::<u128, Seq<char>>(observed),
        observed != command.session_id.0,
    ensures
        ambiguous_as(
            evidence,
            event,
            line,
            command,
            PROVIDER@ + " result session did not match the intended session"@,
        ),
{
    lemma_kinds();
}

/// A line that is no JSON is refused with the reason, to a review and to a conversation alike.
pub proof fn unreadable_line_is_told(
    codec: CodecView,
    evidence: EvidenceView,
    line: Seq<char>,
    reason: Seq<char>,
    command: TargetCommandView,
)
    requires
        json_parsed(line) == Err::<JsonView, Seq<char>>(reason),
    ensures
        observed_line(
            codec,
            json_parsed(line),
            command.expected_model,
            command.session_id,
        ) == (
            codec,
            Err::<Seq<TargetLiveObservationView>, _>(
                CodecErrorView::Indeterminate(
                    PROVIDER@ + " emitted invalid structured JSON: "@ + reason,
                ),
            ),
        ),
        line_interpreted(evidence, line, command).1 == Err::<(), _>(
            InterpretationErrorView::Ambiguous(
                PROVIDER@ + " emitted invalid stream JSON: "@ + reason,
            ),
        ),
{
}

/// Output is consumed in its order up to the first line that is refused: what two parts let be
/// observed is what the first lets be observed and, where it was not refused, then the second.
pub proof fn output_is_consumed_in_order(
    codec: CodecView,
    first: Seq<Seq<char>>,
    second: Seq<Seq<char>>,
    model: Seq<char>,
    session: TargetSessionId,
)
    ensures
        ({
            let (between, seen, refusal) = output_consumed(codec, first, model, session);
            let (last, more, later) = output_consumed(between, second, model, session);
            output_consumed(codec, first + second, model, session) == (if refusal is Some {
                (between, seen, refusal)
            } else {
                (last, seen + more, later)
            })
        }),
    decreases second.len(),
{
    let (between, seen, refusal) = output_consumed(codec, first, model, session);
    if second.len() == 0 {
        assert(first + second =~= first);
        assert(seen + Seq::<TargetLiveObservationView>::empty() =~= seen);
    } else {
        let both = first + second;
        assert(both.drop_last() =~= first + second.drop_last());
        assert(both.last() == second.last());
        output_is_consumed_in_order(codec, first, second.drop_last(), model, session);
        let (_, more, later) = output_consumed(between, second.drop_last(), model, session);
        if refusal is None && later is None {
            let (_, answer) = observed_line(
                output_consumed(between, second.drop_last(), model, session).0,
                json_parsed(second.last()),
                model,
                session,
            );
            match answer {
                Ok(added) => {
                    assert(seen + more + added =~= seen + (more + added));
                },
                Err(_) => {},
            }
        }
    }
}

/// One line of output lets be observed what its event lets be observed.
pub proof fn one_line_is_consumed(
    codec: CodecView,
    line: Seq<char>,
    model: Seq<char>,
    session: TargetSessionId,
)
    ensures
        ({
            let (after, answer) = observed_line(codec, json_parsed(line), model, session);
            output_consumed(codec, seq![line], model, session) == (match answer {
                Ok(observations) => (after, observations, None::<CodecErrorView>),
                Err(error) => (after, Seq::<TargetLiveObservationView>::empty(), Some(error)),
            })
        }),
        output_consumed(codec, Seq::empty(), model, session) == (
            codec,
            Seq::<TargetLiveObservationView>::empty(),
            None::<CodecErrorView>,
        ),
{
    reveal_with_fuel(output_consumed, 2);
    assert(seq![line].drop_last() =~= Seq::empty());
    let (_, answer) = observed_line(codec, json_parsed(line), model, session);
    match answer {
        Ok(observations) => {
            assert(Seq::<TargetLiveObservationView>::empty() + observations =~= observations);
        },
        Err(_) => {},
    }
}

/// Whatever a review failed of or left unclear is told together with the standard error, where the
/// child wrote any; a cancellation is not.
pub proof fn end_is_told_with_standard_error(
    failures: ReviewFailuresView,
    exit_success: bool,
    prompt: PromptInputView,
    evidence: EvidenceView,
    command: TargetCommandView,
    stderr: Seq<char>,
)
    requires
        stderr.len() > 0,
    ensures
        ({
            let told = |cancelled: bool, stderr: Seq<char>|
                review_concluded(
                    failures,
                    cancelled,
                    exit_success,
                    prompt,
                    evidence,
                    command,
                    stderr,
                );
            &&& told(true, stderr) == told(true, Seq::empty())
            &&& told(false, Seq::empty()) matches TargetOutcomeView::Failed(message) ==> told(
                false,
                stderr,
            ) == TargetOutcomeView::Failed(message + ": "@ + stderr)
            &&& told(false, Seq::empty()) matches TargetOutcomeView::Indeterminate(message)
                ==> told(false, stderr) == TargetOutcomeView::Indeterminate(
                message + ": "@ + stderr,
            )
            &&& told(false, Seq::empty()) matches TargetOutcomeView::Success(success) ==> told(
                false,
                stderr,
            ) == TargetOutcomeView::Success(success)
        }),
{
}

/// A review whose identity was not proven is left unclear in words that say what is missing or
/// differs.
pub proof fn unproven_identity_is_told(
    failures: ReviewFailuresView,
    evidence: EvidenceView,
    command: TargetCommandView,
)
    requires
        failures.provider_failure is None,
        failures.terminal_error is None,
        evidence.result is Some,
    ensures
        ({
            let outcome = review_concluded(
                failures,
                false,
                true,
                PromptInputView::Written,
                evidence,
                command,
                Seq::empty(),
            );
            let told = |words: Seq<char>| outcome == TargetOutcomeView::Indeterminate(words);
            match evidence.init_session {
                None => told(
                    PROVIDER@ + " init session evidence is missing: intended "@ + uuid_text(
                        command.session_id.0,
                    ),
                ),
                Some(session) => if session != command.session_id {
                    told(
                        PROVIDER@ + " init session mismatch: intended "@ + uuid_text(
                            command.session_id.0,
                        ) + "; observed "@ + uuid_text(session.0),
                    )
                } else {
                    match evidence.init_model {
                        None => told(
                            PROVIDER@ + " init model evidence is missing: intended "@
                                + command.expected_model,
                        ),
                        Some(model) => model != command.expected_model ==> told(
                            PROVIDER@ + " init model mismatch: intended "@
                                + command.expected_model + "; observed "@ + model,
                        ),
                    }
                },
            }
        }),
{
}

/// A review that was not launched, or was stopped before it ran, is told in words that say how far
/// it came.
pub proof fn unlaunched_review_is_told_in_words(stdin: bool, stdout: bool, stderr: bool)
    ensures
        ({
            let done = |outcome: TargetOutcomeView| ReviewStepView::Done(outcome);
            let unclear = |words: Seq<char>| done(TargetOutcomeView::Indeterminate(words));
            let reported = ReviewEventView::Reported { received: true };
            let unreported = ReviewEventView::Reported { received: false };
            let captured = review_advanced(
                ReviewStepView::Capture,
                ReviewEventView::Captured { stdin, stdout, stderr },
            );
            &&& review_advanced(ReviewStepView::ReportCancelled, reported) == done(
                TargetOutcomeView::CancelledBeforeLaunch(
                    "cancellation was observed before direct "@ + PROVIDER@ + " launch"@,
                ),
            )
            &&& review_advanced(ReviewStepView::ReportCancelled, unreported) == unclear(
                "Control stopped waiting before pre-launch cancellation could be reported"@,
            )
            &&& review_advanced(
                ReviewStepView::ReportSpawnFailed { error: Seq::empty() },
                unreported,
            ) == unclear(
                "Control stopped waiting before target launch failure could be reported"@,
            )
            &&& !stdin ==> captured == unclear("direct child stdin was not captured"@)
            &&& stdin && !stdout ==> captured == unclear("direct child stdout was not captured"@)
            &&& stdin && stdout && !stderr ==> captured == unclear(
                "direct child stderr was not captured"@,
            )
            &&& review_advanced(ReviewStepView::ReportLaunched, unreported)
                == (ReviewStepView::Terminate {
                reason: "Control stopped waiting before durable Running acknowledgement"@,
            })
            &&& review_advanced(ReviewStepView::AwaitPermission, ReviewEventView::PermissionLost)
                == (ReviewStepView::Terminate {
                reason: "Control did not grant durable Running acknowledgement"@,
            })
        }),
{
}

} // verus!
