//! What the structured output of a live conversation does, said of the events that the provider
//! writes and of what is observed of them.

use vstd::prelude::*;

use crate::contract::target::{TargetLiveObservationView, TargetSessionId, TargetTurnId};
use crate::identifier::uuid_parsed;
use crate::json::JsonView;
use crate::target::conversation_codec::{
    observed_line, CodecErrorView, CodecView, InitializationView, TurnEntryView, TurnPhase,
};
use crate::target::review_laws::{names_session, says};

verus! {

/// Whether a member of an event is a text that is read as the identity of a turn.
pub open spec fn names_turn(event: JsonView, name: Seq<char>, turn_id: TargetTurnId) -> bool {
    exists|text: Seq<char>| #[trigger]
        says(event, name, text) && uuid_parsed(text) == Ok::<u128, Seq<char>>(turn_id.0)
}

/// Whether the provider works on exactly one turn.
pub open spec fn works_on(codec: CodecView, turn_id: TargetTurnId) -> bool {
    &&& codec.turns.contains_key(turn_id)
    &&& codec.turns[turn_id].phase == TurnPhase::Started
    &&& forall|other: TargetTurnId| #[trigger]
        codec.turns.contains_key(other) && codec.turns[other].phase == TurnPhase::Started
            ==> other == turn_id
}

/// Whether an event is accepted with nothing to observe and changes nothing.
pub open spec fn passes(
    codec: CodecView,
    event: JsonView,
    model: Seq<char>,
    session: TargetSessionId,
) -> bool {
    let (after, answer) = observed_line(codec, Ok(event), model, session);
    after == codec && (answer matches Ok(observations) && observations.len() == 0)
}

/// Whether an event is refused as indeterminate and changes nothing.
pub open spec fn refused(
    codec: CodecView,
    event: JsonView,
    model: Seq<char>,
    session: TargetSessionId,
) -> bool {
    let (after, answer) = observed_line(codec, Ok(event), model, session);
    after == codec && (answer matches Err(CodecErrorView::Indeterminate(_)))
}

proof fn lemma_kinds()
    ensures
        "system"@ != "command_lifecycle"@,
        "system"@ != "user"@,
        "system"@ != "assistant"@,
        "system"@ != "stream_event"@,
        "system"@ != "result"@,
        "command_lifecycle"@ != "user"@,
        "command_lifecycle"@ != "assistant"@,
        "command_lifecycle"@ != "stream_event"@,
        "command_lifecycle"@ != "result"@,
        "user"@ != "assistant"@,
        "user"@ != "stream_event"@,
        "user"@ != "result"@,
        "assistant"@ != "stream_event"@,
        "assistant"@ != "result"@,
        "stream_event"@ != "result"@,
        "queued"@ != "started"@,
        "queued"@ != "completed"@,
        "started"@ != "completed"@,
{
    reveal_strlit("system");
    reveal_strlit("command_lifecycle");
    reveal_strlit("user");
    reveal_strlit("assistant");
    reveal_strlit("stream_event");
    reveal_strlit("result");
    reveal_strlit("queued");
    reveal_strlit("started");
    reveal_strlit("completed");
    assert("system"@[0] != "result"@[0]);
    assert("system"@.len() == 6 && "command_lifecycle"@.len() == 17 && "user"@.len() == 4);
    assert("assistant"@.len() == 9 && "stream_event"@.len() == 12 && "result"@.len() == 6);
    assert("queued"@.len() == 6 && "started"@.len() == 7 && "completed"@.len() == 9);
}

proof fn lemma_works_on(codec: CodecView, turn_id: TargetTurnId)
    requires
        works_on(codec, turn_id),
    ensures
        codec.sole_started() == Ok::<_, Seq<char>>(turn_id),
{
    assert(codec.started(turn_id));
    assert forall|other: TargetTurnId| #[trigger] codec.started(other) implies other == turn_id by {
        assert(codec.turns.contains_key(other));
    }
}

proof fn lemma_works_on_none(codec: CodecView)
    requires
        forall|turn_id: TargetTurnId| !#[trigger] works_on(codec, turn_id),
    ensures
        codec.sole_started() is Err,
{
    if codec.sole_started() is Ok {
        let sole = codec.sole_started()->Ok_0;
        assert(codec.started(sole));
        assert forall|other: TargetTurnId| #[trigger]
            codec.turns.contains_key(other) && codec.turns[other].phase
                == TurnPhase::Started implies other == sole by {
            assert(codec.started(other));
        }
        assert(works_on(codec, sole));
    }
}

/// The initialization of the intended session with the expected model is observed with the version
/// that it tells, and is what the conversation knows from then on; a repetition is observed again, and
/// one that differs is refused.
pub proof fn matching_initialization_is_observed(
    codec: CodecView,
    event: JsonView,
    model: Seq<char>,
    session: TargetSessionId,
    version: Option<Seq<char>>,
)
    requires
        says(event, "type"@, "system"@),
        says(event, "subtype"@, "init"@),
        names_session(event, session),
        says(event, "model"@, model),
        match event.member("claude_code_version"@) {
            Some(JsonView::Text(text)) => version == Some(text),
            _ => version is None,
        },
    ensures
        ({
            let identity = InitializationView { session_id: session, model, version };
            let (after, answer) = observed_line(codec, Ok(event), model, session);
            if codec.initialized is None || codec.initialized == Some(identity) {
                &&& after.initialized == Some(identity)
                &&& after.turns == codec.turns
                &&& answer == Ok::<_, CodecErrorView>(
                    seq![
                        TargetLiveObservationView::Initialized {
                            session_id: session,
                            model,
                            version,
                        },
                    ],
                )
            } else {
                refused(codec, event, model, session)
            }
        }),
{
}

/// An initialization that names another session or another model, or none, is refused.
pub proof fn other_initialization_is_refused(
    codec: CodecView,
    event: JsonView,
    model: Seq<char>,
    session: TargetSessionId,
)
    requires
        says(event, "type"@, "system"@),
        says(event, "subtype"@, "init"@),
        !names_session(event, session) || !says(event, "model"@, model),
    ensures
        refused(codec, event, model, session),
{
    if let Some(JsonView::Text(text)) = event.member("session_id"@) {
        assert(says(event, "session_id"@, text));
    }
}

/// A turn that was written is queued, started and completed by the lifecycle events that name it, each
/// in its phase and observed as such; it starts only while no turn is worked on, and completes with
/// the result that was kept of it. Every other lifecycle event of a known turn is refused.
pub proof fn lifecycle_moves_its_turn(
    codec: CodecView,
    event: JsonView,
    model: Seq<char>,
    session: TargetSessionId,
    turn_id: TargetTurnId,
    state: Seq<char>,
)
    requires
        says(event, "type"@, "command_lifecycle"@),
        names_session(event, session),
        names_turn(event, "command_uuid"@, turn_id),
        says(event, "state"@, state),
        codec.turns.contains_key(turn_id),
        codec.turns[turn_id].turn.turn_id == turn_id,
    ensures
        ({
            let entry = codec.turns[turn_id];
            let busy = exists|other: TargetTurnId|
                #![trigger codec.turns.contains_key(other)]
                codec.turns.contains_key(other) && (codec.turns[other].phase == TurnPhase::Started
                    || codec.turns[other].phase == TurnPhase::ResultObserved);
            let (after, answer) = observed_line(codec, Ok(event), model, session);
            let moved = |phase: TurnPhase, observation: TargetLiveObservationView|
                {
                    &&& after.initialized == codec.initialized
                    &&& after.turns == codec.turns.insert(
                        turn_id,
                        TurnEntryView { turn: entry.turn, phase, result: entry.result },
                    )
                    &&& answer == Ok::<_, CodecErrorView>(seq![observation])
                };
            if entry.phase == TurnPhase::AwaitingQueue && state == "queued"@ {
                moved(TurnPhase::Queued, TargetLiveObservationView::TurnQueued { turn_id })
            } else if entry.phase == TurnPhase::Queued && state == "started"@ && !busy {
                moved(TurnPhase::Started, TargetLiveObservationView::TurnStarted { turn_id })
            } else if entry.phase == TurnPhase::ResultObserved && entry.result is Some && state
                == "completed"@ {
                moved(
                    TurnPhase::Completed,
                    TargetLiveObservationView::TurnCompleted {
                        turn_id,
                        result: entry.result->Some_0,
                    },
                )
            } else {
                refused(codec, event, model, session)
            }
        }),
{
    lemma_kinds();
    let busy = exists|other: TargetTurnId|
        #![trigger codec.turns.contains_key(other)]
        codec.turns.contains_key(other) && (codec.turns[other].phase == TurnPhase::Started
            || codec.turns[other].phase == TurnPhase::ResultObserved);
    if busy {
        let other = choose|other: TargetTurnId|
            #![trigger codec.turns.contains_key(other)]
            codec.turns.contains_key(other) && (codec.turns[other].phase == TurnPhase::Started
                || codec.turns[other].phase == TurnPhase::ResultObserved);
        assert(codec.active(other));
    }
    if codec.has_active() {
        let other = choose|other: TargetTurnId| #[trigger] codec.active(other);
        assert(codec.turns.contains_key(other));
    }
}

/// A lifecycle event of another session, or of a turn that was never written, is refused.
pub proof fn lifecycle_of_a_stranger_is_refused(
    codec: CodecView,
    event: JsonView,
    model: Seq<char>,
    session: TargetSessionId,
)
    requires
        says(event, "type"@, "command_lifecycle"@),
        !names_session(event, session) || forall|turn_id: TargetTurnId| #[trigger]
            names_turn(event, "command_uuid"@, turn_id) ==> !codec.turns.contains_key(turn_id),
    ensures
        refused(codec, event, model, session),
{
    lemma_kinds();
    if let Some(JsonView::Text(text)) = event.member("session_id"@) {
        assert(says(event, "session_id"@, text));
    }
    if let Some(JsonView::Text(text)) = event.member("command_uuid"@) {
        assert(says(event, "command_uuid"@, text));
        if let Ok(value) = uuid_parsed(text) {
            assert(names_turn(event, "command_uuid"@, TargetTurnId(value)));
        }
    }
}

/// The exact replay of the prompt of a queued or started turn acknowledges that turn and changes
/// nothing; any other replay is refused.
pub proof fn exact_replay_acknowledges_its_turn(
    codec: CodecView,
    event: JsonView,
    model: Seq<char>,
    session: TargetSessionId,
    turn_id: TargetTurnId,
    block: JsonView,
    prompt: Seq<char>,
    message: JsonView,
)
    requires
        codec.initialized is Some,
        says(event, "type"@, "user"@),
        names_session(event, session),
        event.member("isReplay"@) == Some(JsonView::Bool(true)),
        names_turn(event, "uuid"@, turn_id),
        event.member("message"@) == Some(message),
        message is Object,
        message.member("content"@) == Some(JsonView::Array(seq![block])),
        block is Object,
        says(block, "type"@, "text"@),
        says(block, "text"@, prompt),
    ensures
        if codec.turns.contains_key(turn_id) && codec.turns[turn_id].turn.prompt == prompt && (
        codec.turns[turn_id].phase == TurnPhase::Queued || codec.turns[turn_id].phase
            == TurnPhase::Started) {
            observed_line(codec, Ok(event), model, session) == (
                codec,
                Ok::<_, CodecErrorView>(
                    seq![TargetLiveObservationView::TurnAcknowledged { turn_id }],
                ),
            )
        } else {
            refused(codec, event, model, session)
        },
{
    lemma_kinds();
    assert(seq![block][0] == block);
}

/// A tool result of the intended session, with an identity that no caller's turn has, and exactly one
/// well-formed block, is let pass while one turn is worked on, whether the tool succeeded or failed:
/// nothing is observed and nothing changes.
pub proof fn tool_result_passes(
    codec: CodecView,
    event: JsonView,
    model: Seq<char>,
    session: TargetSessionId,
    worked_on: TargetTurnId,
    identity: TargetTurnId,
    message: JsonView,
    block: JsonView,
    content: Seq<char>,
    tool_use: Seq<char>,
)
    requires
        codec.initialized is Some,
        works_on(codec, worked_on),
        says(event, "type"@, "user"@),
        names_session(event, session),
        event.member("isReplay"@) is None,
        names_turn(event, "uuid"@, identity),
        !codec.turns.contains_key(identity),
        event.member("message"@) == Some(message),
        message is Object,
        message.member("content"@) == Some(JsonView::Array(seq![block])),
        block is Object,
        says(block, "type"@, "tool_result"@),
        says(block, "content"@, content),
        says(block, "tool_use_id"@, tool_use),
        block.member("is_error"@) is None || block.member("is_error"@) == Some(
            JsonView::Bool(true),
        ),
    ensures
        passes(codec, event, model, session),
{
    lemma_kinds();
    lemma_works_on(codec, worked_on);
    assert(seq![block][0] == block);
}

/// A user event that is neither a replay nor a well-formed tool result is refused: one that reuses the
/// identity of a caller's turn, comes while not exactly one turn is worked on, has not exactly one
/// block, or a block that is no tool result, has no text, no tool, or a flag other than a failure.
pub proof fn other_tool_result_is_refused(
    codec: CodecView,
    event: JsonView,
    model: Seq<char>,
    session: TargetSessionId,
    identity: TargetTurnId,
    message: JsonView,
    blocks: Seq<JsonView>,
)
    requires
        says(event, "type"@, "user"@),
        event.member("isReplay"@) != Some(JsonView::Bool(true)),
        names_turn(event, "uuid"@, identity),
        event.member("message"@) == Some(message),
        message is Object,
        message.member("content"@) == Some(JsonView::Array(blocks)),
        ({
            ||| event.member("isReplay"@) is Some
            ||| codec.turns.contains_key(identity)
            ||| forall|turn_id: TargetTurnId| !#[trigger] works_on(codec, turn_id)
            ||| blocks.len() != 1
            ||| !(blocks[0] is Object)
            ||| !says(blocks[0], "type"@, "tool_result"@)
            ||| !(blocks[0].member("content"@) matches Some(JsonView::Text(_)))
            ||| !(blocks[0].member("tool_use_id"@) matches Some(JsonView::Text(_)))
            ||| (blocks[0].member("is_error"@) is Some && blocks[0].member("is_error"@) != Some(
                JsonView::Bool(true),
            ))
        }),
    ensures
        refused(codec, event, model, session),
{
    lemma_kinds();
    if forall|turn_id: TargetTurnId| !#[trigger] works_on(codec, turn_id) {
        lemma_works_on_none(codec);
    }
}

/// Text of the assistant is observed for the one turn that is worked on, exactly as it was written;
/// an empty text is not observed. Without exactly one such turn it is refused.
pub proof fn text_is_observed_of_the_turn(
    codec: CodecView,
    event: JsonView,
    model: Seq<char>,
    session: TargetSessionId,
    turn_id: TargetTurnId,
    inner: JsonView,
    delta: JsonView,
    text: Seq<char>,
)
    requires
        codec.initialized is Some,
        says(event, "type"@, "stream_event"@),
        names_session(event, session),
        event.member("event"@) == Some(inner),
        inner is Object,
        says(inner, "type"@, "content_block_delta"@),
        inner.member("delta"@) == Some(delta),
        delta is Object,
        says(delta, "type"@, "text_delta"@),
        says(delta, "text"@, text),
    ensures
        works_on(codec, turn_id) ==> observed_line(codec, Ok(event), model, session) == (
            codec,
            Ok::<_, CodecErrorView>(
                if text.len() > 0 {
                    seq![TargetLiveObservationView::AssistantTextDelta { turn_id, text }]
                } else {
                    Seq::empty()
                },
            ),
        ),
        (forall|other: TargetTurnId| !#[trigger] works_on(codec, other)) ==> refused(
            codec,
            event,
            model,
            session,
        ),
{
    lemma_kinds();
    if works_on(codec, turn_id) {
        lemma_works_on(codec, turn_id);
    }
    if forall|other: TargetTurnId| !#[trigger] works_on(codec, other) {
        lemma_works_on_none(codec);
    }
}

/// A result belongs to the one turn that is worked on: a success is kept for its completion and is not
/// observed yet, a failure is the failure of that turn in the provider's own words, and a flag or a
/// text that is missing is refused.
pub proof fn result_belongs_to_the_turn(
    codec: CodecView,
    event: JsonView,
    model: Seq<char>,
    session: TargetSessionId,
    turn_id: TargetTurnId,
)
    requires
        codec.initialized is Some,
        says(event, "type"@, "result"@),
        names_session(event, session),
        works_on(codec, turn_id),
        codec.turns[turn_id].turn.turn_id == turn_id,
    ensures
        ({
            let (after, answer) = observed_line(codec, Ok(event), model, session);
            match (event.member("is_error"@), event.member("result"@)) {
                (Some(JsonView::Bool(false)), Some(JsonView::Text(text))) => {
                    &&& answer matches Ok(observations) && observations.len() == 0
                    &&& after.initialized == codec.initialized
                    &&& after.turns == codec.turns.insert(
                        turn_id,
                        TurnEntryView {
                            turn: codec.turns[turn_id].turn,
                            phase: TurnPhase::ResultObserved,
                            result: Some(text),
                        },
                    )
                },
                (Some(JsonView::Bool(true)), Some(JsonView::Text(text))) => after == codec && answer
                    == Err::<Seq<TargetLiveObservationView>, _>(
                    CodecErrorView::Failed { turn_id, message: text },
                ),
                _ => refused(codec, event, model, session),
            }
        }),
{
    lemma_kinds();
    lemma_works_on(codec, turn_id);
}

/// A message of the assistant passes while one turn is worked on.
pub proof fn assistant_message_passes(
    codec: CodecView,
    event: JsonView,
    model: Seq<char>,
    session: TargetSessionId,
    turn_id: TargetTurnId,
)
    requires
        codec.initialized is Some,
        says(event, "type"@, "assistant"@),
        names_session(event, session),
        works_on(codec, turn_id),
    ensures
        passes(codec, event, model, session),
{
    lemma_kinds();
    lemma_works_on(codec, turn_id);
}

/// Whether an event is about a turn: a user event, a message or a text of the assistant, or a result.
pub open spec fn about_a_turn(event: JsonView) -> bool {
    ||| says(event, "type"@, "user"@)
    ||| says(event, "type"@, "assistant"@)
    ||| says(event, "type"@, "result"@)
    ||| says(event, "type"@, "stream_event"@) && (event.member("event"@) matches Some(inner)
        && inner is Object && says(inner, "type"@, "content_block_delta"@) && (inner.member(
        "delta"@,
    ) matches Some(delta) && delta is Object && says(delta, "type"@, "text_delta"@)))
}

/// An event about a turn is refused before the provider has said who it is, and where it names another
/// session than the intended one.
pub proof fn turn_event_needs_the_intended_session(
    codec: CodecView,
    event: JsonView,
    model: Seq<char>,
    session: TargetSessionId,
)
    requires
        about_a_turn(event),
        codec.initialized is None || !names_session(event, session),
    ensures
        refused(codec, event, model, session),
{
    lemma_kinds();
    if let Some(JsonView::Text(text)) = event.member("session_id"@) {
        assert(says(event, "session_id"@, text));
    }
}

/// Every other event passes: what the provider tells besides is ignored.
pub proof fn other_events_pass(
    codec: CodecView,
    event: JsonView,
    model: Seq<char>,
    session: TargetSessionId,
)
    requires
        !about_a_turn(event),
        !says(event, "type"@, "command_lifecycle"@),
        !(says(event, "type"@, "system"@) && says(event, "subtype"@, "init"@)),
    ensures
        passes(codec, event, model, session),
{
    lemma_kinds();
}

/// A line that is no JSON is refused.
pub proof fn unreadable_line_is_refused(
    codec: CodecView,
    message: Seq<char>,
    model: Seq<char>,
    session: TargetSessionId,
)
    ensures
        observed_line(codec, Err(message), model, session).0 == codec,
        observed_line(codec, Err(message), model, session).1 matches Err(
            CodecErrorView::Indeterminate(_),
        ),
{
}

} // verus!
