//! What holds of the structured output of a live conversation as a whole.

use vstd::prelude::*;

use crate::contract::target::{TargetLiveObservationView, TargetSessionId, TargetTurnId};
use crate::target::conversation_codec::{accepted, CodecView, TurnPhase};
use crate::target::provider_event::ProviderEventView;

verus! {

/// Whether every turn stands under its own identity.
pub open spec fn turns_own(codec: CodecView) -> bool {
    forall|turn_id: TargetTurnId| #[trigger]
        codec.turns.contains_key(turn_id) ==> codec.turns[turn_id].turn.turn_id == turn_id
}

/// Whether at most one turn is active.
pub open spec fn one_active(codec: CodecView) -> bool {
    forall|left: TargetTurnId, right: TargetTurnId| #[trigger]
        codec.active(left) && #[trigger] codec.active(right) ==> left == right
}

/// How far a phase is along the life of a turn.
pub open spec fn progress(phase: TurnPhase) -> int {
    match phase {
        TurnPhase::AwaitingQueue => 0,
        TurnPhase::Queued => 1,
        TurnPhase::Started => 2,
        TurnPhase::ResultObserved => 3,
        TurnPhase::Completed => 4,
    }
}

/// A codec that has seen nothing has no active turn.
pub proof fn empty_codec_is_sound()
    ensures
        turns_own(CodecView::empty()),
        one_active(CodecView::empty()),
{
}

/// A turn that is active after an event was active before it, or none was and it has just started.
proof fn lemma_active_before(
    codec: CodecView,
    event: ProviderEventView,
    expected_model: Seq<char>,
    intended: TargetSessionId,
    turn_id: TargetTurnId,
)
    requires
        turns_own(codec),
        accepted(codec, event, expected_model, intended).0.active(turn_id),
    ensures
        codec.active(turn_id) || (!codec.has_active() && (event matches ProviderEventView::Lifecycle {
            turn,
            ..
        } && turn == Ok::<_, Seq<char>>(turn_id))),
{
    let after = accepted(codec, event, expected_model, intended).0;
    if codec.sole_started() is Ok {
        let sole = codec.sole_started()->Ok_0;
        assert(codec.started(sole));
        assert(codec.active(sole));
        assert(codec.turns[sole].turn.turn_id == sole);
    }
    match event {
        ProviderEventView::Lifecycle { session, turn, state } => {
            if turn is Ok && codec.turns.contains_key(turn->Ok_0) {
                assert(codec.turns[turn->Ok_0].turn.turn_id == turn->Ok_0);
            }
        },
        _ => {},
    }
}

/// No event lets the provider work on two turns at once, forget a turn, change the turn itself, or
/// take a turn back; and a turn moves by one phase at most.
pub proof fn events_keep_one_active_turn(
    codec: CodecView,
    event: ProviderEventView,
    expected_model: Seq<char>,
    intended: TargetSessionId,
)
    requires
        turns_own(codec),
        one_active(codec),
    ensures
        turns_own(accepted(codec, event, expected_model, intended).0),
        one_active(accepted(codec, event, expected_model, intended).0),
        accepted(codec, event, expected_model, intended).0.turns.dom() == codec.turns.dom(),
        forall|turn_id: TargetTurnId| #[trigger]
            codec.turns.contains_key(turn_id) ==> {
                let before = codec.turns[turn_id];
                let after = accepted(codec, event, expected_model, intended).0.turns[turn_id];
                &&& after.turn == before.turn
                &&& progress(before.phase) <= progress(after.phase) <= progress(before.phase) + 1
            },
{
    let after = accepted(codec, event, expected_model, intended).0;
    assert(after.turns.dom() =~= codec.turns.dom()) by {
        if codec.sole_started() is Ok {
            assert(codec.started(codec.sole_started()->Ok_0));
        }
    }
    assert forall|left: TargetTurnId, right: TargetTurnId| #[trigger]
        after.active(left) && #[trigger] after.active(right) implies left == right by {
        lemma_active_before(codec, event, expected_model, intended, left);
        lemma_active_before(codec, event, expected_model, intended, right);
    }
}

/// A refused event leaves everything as it was.
pub proof fn refused_event_changes_nothing(
    codec: CodecView,
    event: ProviderEventView,
    expected_model: Seq<char>,
    intended: TargetSessionId,
)
    requires
        accepted(codec, event, expected_model, intended).1 is Err,
    ensures
        accepted(codec, event, expected_model, intended).0 == codec,
{
}

/// Who the provider is never changes once it is known, and it is known only as the intended session
/// with the expected model.
pub proof fn identity_is_stable(
    codec: CodecView,
    event: ProviderEventView,
    expected_model: Seq<char>,
    intended: TargetSessionId,
)
    ensures
        ({
            let after = accepted(codec, event, expected_model, intended).0;
            &&& codec.initialized is Some ==> after.initialized == codec.initialized
            &&& codec.initialized is None && after.initialized is Some ==> {
                &&& after.initialized->Some_0.session_id == intended
                &&& after.initialized->Some_0.model == expected_model
            }
        }),
{
}

/// A turn is observed as completed only from a result that was observed for it, with that result.
pub proof fn completion_needs_its_result(
    codec: CodecView,
    event: ProviderEventView,
    expected_model: Seq<char>,
    intended: TargetSessionId,
    turn_id: TargetTurnId,
    result: Seq<char>,
)
    requires
        turns_own(codec),
        accepted(codec, event, expected_model, intended).1 is Ok,
        accepted(codec, event, expected_model, intended).1->Ok_0.contains(
            TargetLiveObservationView::TurnCompleted { turn_id, result },
        ),
    ensures
        codec.turns.contains_key(turn_id),
        codec.turns[turn_id].phase is ResultObserved,
        codec.turns[turn_id].result == Some(result),
        accepted(codec, event, expected_model, intended).0.turns[turn_id].phase is Completed,
{
    let observations = accepted(codec, event, expected_model, intended).1->Ok_0;
    assert(observations.len() <= 1);
    assert(observations[0] == (TargetLiveObservationView::TurnCompleted { turn_id, result }));
}

/// Text and results are attributed only to the one turn that the provider works on.
pub proof fn text_belongs_to_the_started_turn(
    codec: CodecView,
    event: ProviderEventView,
    expected_model: Seq<char>,
    intended: TargetSessionId,
    turn_id: TargetTurnId,
    text: Seq<char>,
)
    requires
        accepted(codec, event, expected_model, intended).1 is Ok,
        accepted(codec, event, expected_model, intended).1->Ok_0.contains(
            TargetLiveObservationView::AssistantTextDelta { turn_id, text },
        ),
    ensures
        codec.started(turn_id),
        codec.initialized is Some,
        forall|other: TargetTurnId| #[trigger] codec.started(other) ==> other == turn_id,
        text.len() > 0,
{
    let observations = accepted(codec, event, expected_model, intended).1->Ok_0;
    assert(observations.len() <= 1);
    assert(observations[0] == (TargetLiveObservationView::AssistantTextDelta { turn_id, text }));
    assert(codec.sole_started() == Ok::<_, Seq<char>>(turn_id));
    assert forall|other: TargetTurnId| #[trigger] codec.started(other) implies other == turn_id by {
        assert(codec.started(turn_id));
    }
}

} // verus!
