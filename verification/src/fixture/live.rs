//! What the deterministic target does with each turn of a conversation.

use vstd::prelude::*;
use vstd::string::*;

use crate::fixture::event::{
    delta, delta_event, init, init_event, lifecycle, lifecycle_event, live_result,
    live_result_event, replay, replay_event, tool_result, tool_result_event, tool_use,
    tool_use_event,
};
use crate::fixture::invocation::{LiveInvocation, LiveInvocationView, LiveTurn, LiveTurnView};
use crate::fixture::review::other_session;
use crate::fixture::script::{act, idle, script, Action, ActionView, Exit, Script, ScriptView};
use crate::text::{joined, same_text, views};

verus! {

/// What the target says of itself in a turn.
#[verifier::ext_equal]
pub struct Claimed {
    pub session: Seq<char>,
    pub model: Seq<char>,
    pub prompt: Seq<char>,
    pub turn: Seq<char>,
}

/// What the target says of itself in a turn; each mismatch has its own prompt.
pub open spec fn claimed(invocation: LiveInvocationView, turn: LiveTurnView) -> Claimed {
    Claimed {
        session: if turn.prompt == "__fixture_live_session_mismatch__"@ {
            other_session()
        } else {
            invocation.session
        },
        model: if turn.prompt == "__fixture_live_model_mismatch__"@ {
            "other-model"@
        } else {
            invocation.model
        },
        prompt: if turn.prompt == "__fixture_live_content_mismatch__"@ {
            "different replayed content"@
        } else {
            turn.prompt
        },
        turn: if turn.prompt == "__fixture_live_uuid_mismatch__"@ {
            other_session()
        } else {
            turn.uuid
        },
    }
}

/// What the target does before the first event of a turn.
pub open spec fn turn_prologue(turn: LiveTurnView) -> Seq<ActionView> {
    let none = Seq::<ActionView>::empty();
    let held = if turn.prompt == "__fixture_live_hold__"@ {
        none.push(ActionView::Sleep { millis: 2000 })
    } else {
        none
    };
    if turn.prompt == "__fixture_live_session_mismatch__"@ {
        held.push(ActionView::Complain("fixture-live-stderr-marker"@))
    } else {
        held
    }
}

/// A turn in its ordinary course up to its result.
pub open spec fn turn_course(claimed: Claimed, turn: LiveTurnView) -> Seq<ActionView> {
    turn_prologue(turn).push(
        ActionView::Emit(lifecycle_event(claimed.turn, claimed.session, "queued"@)),
    ).push(ActionView::Emit(lifecycle_event(claimed.turn, claimed.session, "started"@))).push(
        ActionView::Emit(init_event(claimed.session, claimed.model)),
    ).push(ActionView::Emit(replay_event(turn.uuid, claimed.session, claimed.prompt))).push(
        ActionView::Emit(tool_use_event(claimed.session)),
    )
}

/// A turn in its ordinary course up to its text.
pub open spec fn turn_text(claimed: Claimed, turn: LiveTurnView) -> Seq<ActionView> {
    turn_course(claimed, turn).push(
        ActionView::Emit(tool_result_event(claimed.session, false)),
    ).push(ActionView::Emit(delta_event(claimed.session, turn.prompt)))
}

/// What the target does with one turn.
pub open spec fn turn_script(invocation: LiveInvocationView, turn: LiveTurnView) -> ScriptView {
    let claimed = claimed(invocation, turn);
    let prologue = turn_prologue(turn);
    let queued = prologue.push(
        ActionView::Emit(lifecycle_event(claimed.turn, claimed.session, "queued"@)),
    );
    let prompt = turn.prompt;
    if prompt == "__fixture_live_invalid_json__"@ {
        ScriptView {
            actions: seq![ActionView::Write("{invalid json}\n"@)],
            exit: Exit::Success,
        }
    } else if prompt == "__fixture_live_unexpected_exit__"@ {
        ScriptView { actions: Seq::empty(), exit: Exit::Success }
    } else if prompt == "__fixture_live_lifecycle_order_mismatch__"@ {
        ScriptView {
            actions: prologue.push(
                ActionView::Emit(lifecycle_event(claimed.turn, claimed.session, "started"@)),
            ),
            exit: Exit::Success,
        }
    } else if prompt == "__fixture_live_result_without_started__"@ {
        ScriptView {
            actions: queued.push(
                ActionView::Emit(init_event(claimed.session, claimed.model)),
            ).push(
                ActionView::Emit(replay_event(turn.uuid, claimed.session, claimed.prompt)),
            ).push(
                ActionView::Emit(
                    live_result_event(
                        false,
                        claimed.session,
                        "fixture live result without started turn"@,
                    ),
                ),
            ),
            exit: Exit::Success,
        }
    } else if prompt == "__fixture_live_malformed_tool_result__"@ {
        ScriptView {
            actions: turn_course(claimed, turn).push(
                ActionView::Emit(tool_result_event(claimed.session, true)),
            ),
            exit: Exit::Success,
        }
    } else if prompt == "__fixture_live_unknown_lifecycle__"@ {
        ScriptView {
            actions: turn_text(claimed, turn).push(
                ActionView::Emit(lifecycle_event(turn.uuid, claimed.session, "unknown"@)),
            ),
            exit: Exit::Success,
        }
    } else if prompt == "__fixture_live_provider_failure__"@ {
        ScriptView {
            actions: turn_text(claimed, turn).push(
                ActionView::Emit(
                    live_result_event(true, claimed.session, "fixture live provider failure"@),
                ),
            ),
            exit: Exit::Success,
        }
    } else {
        let told = turn_text(claimed, turn);
        let held = if prompt == "__fixture_live_hold_after_start__"@ {
            told.push(ActionView::Sleep { millis: 2000 })
        } else {
            told
        };
        ScriptView {
            actions: held.push(
                ActionView::Emit(
                    live_result_event(false, claimed.session, "live result: "@ + prompt),
                ),
            ).push(ActionView::Emit(lifecycle_event(turn.uuid, claimed.session, "completed"@))),
            exit: Exit::Continue,
        }
    }
}

/// Writes the script of one turn.
pub fn play(invocation: &LiveInvocation, turn: &LiveTurn) -> (ended: Script)
    ensures
        ended@ == turn_script(invocation@, turn@),
{
    let prompt = turn.prompt.as_str();
    let uuid = turn.uuid.as_str();
    let mut actions = idle();
    if same_text(prompt, "__fixture_live_invalid_json__") {
        act(&mut actions, Action::Write("{invalid json}\n".to_owned()));
        proof {
            assert(views(actions@) =~= seq![
                ActionView::Write("{invalid json}\n"@),
            ]);
        }
        return script(actions, Exit::Success);
    }
    if same_text(prompt, "__fixture_live_unexpected_exit__") {
        return script(actions, Exit::Success);
    }
    if same_text(prompt, "__fixture_live_hold__") {
        act(&mut actions, Action::Sleep { millis: 2000 });
    }
    let session = if same_text(prompt, "__fixture_live_session_mismatch__") {
        act(&mut actions, Action::Complain("fixture-live-stderr-marker".to_owned()));
        "00000000-0000-4000-8000-000000000000"
    } else {
        invocation.session.as_str()
    };
    let model = if same_text(prompt, "__fixture_live_model_mismatch__") {
        "other-model"
    } else {
        invocation.model.as_str()
    };
    let replayed = if same_text(prompt, "__fixture_live_content_mismatch__") {
        "different replayed content"
    } else {
        prompt
    };
    let claimed_turn = if same_text(prompt, "__fixture_live_uuid_mismatch__") {
        "00000000-0000-4000-8000-000000000000"
    } else {
        uuid
    };
    if same_text(prompt, "__fixture_live_lifecycle_order_mismatch__") {
        act(&mut actions, Action::Emit(lifecycle(claimed_turn, session, "started")));
        return script(actions, Exit::Success);
    }
    act(&mut actions, Action::Emit(lifecycle(claimed_turn, session, "queued")));
    if same_text(prompt, "__fixture_live_result_without_started__") {
        act(&mut actions, Action::Emit(init(session, model)));
        act(&mut actions, Action::Emit(replay(uuid, session, replayed)));
        act(
            &mut actions,
            Action::Emit(
                live_result(false, session, "fixture live result without started turn"),
            ),
        );
        return script(actions, Exit::Success);
    }
    act(&mut actions, Action::Emit(lifecycle(claimed_turn, session, "started")));
    act(&mut actions, Action::Emit(init(session, model)));
    act(&mut actions, Action::Emit(replay(uuid, session, replayed)));
    act(&mut actions, Action::Emit(tool_use(session)));
    if same_text(prompt, "__fixture_live_malformed_tool_result__") {
        act(&mut actions, Action::Emit(tool_result(session, true)));
        return script(actions, Exit::Success);
    }
    act(&mut actions, Action::Emit(tool_result(session, false)));
    act(&mut actions, Action::Emit(delta(session, prompt)));
    if same_text(prompt, "__fixture_live_unknown_lifecycle__") {
        act(&mut actions, Action::Emit(lifecycle(uuid, session, "unknown")));
        return script(actions, Exit::Success);
    }
    if same_text(prompt, "__fixture_live_provider_failure__") {
        act(
            &mut actions,
            Action::Emit(live_result(true, session, "fixture live provider failure")),
        );
        return script(actions, Exit::Success);
    }
    if same_text(prompt, "__fixture_live_hold_after_start__") {
        act(&mut actions, Action::Sleep { millis: 2000 });
    }
    let told = joined("live result: ", prompt);
    act(&mut actions, Action::Emit(live_result(false, session, told.as_str())));
    act(&mut actions, Action::Emit(lifecycle(uuid, session, "completed")));
    script(actions, Exit::Continue)
}

} // verus!
