//! What the deterministic target does with one review.

use vstd::prelude::*;
use vstd::string::*;

use crate::contract::target::PROVIDER;
use crate::fixture::event::{
    assistant, assistant_event, authentication, authentication_event, init, init_event, result,
    result_event, retry, retry_event, telemetry, telemetry_event,
};
use crate::fixture::invocation::{Invocation, InvocationView};
use crate::fixture::prompt::{
    PromptInput, PromptInputView, NONZERO_WITHOUT_INPUT_MARKER, PENDING_INPUT_CANCELLATION_MARKER,
};
use crate::fixture::resume::{resumed, resumed_result};
use crate::fixture::script::{act, idle, script, Action, ActionView, Exit, Script, ScriptView};
use crate::text::{contains_text, joined, joined3, occurs, repeated, same_text, views};

verus! {

/// The session that a mismatching target names.
pub open spec fn other_session() -> Seq<char> {
    "00000000-0000-4000-8000-000000000000"@
}

/// What the target does before its result.
pub open spec fn prologue(invocation: InvocationView, prompt: Seq<char>) -> Seq<ActionView> {
    let none = Seq::<ActionView>::empty();
    let waited = if prompt == "__fixture_long_runtime__"@ {
        none.push(ActionView::Sleep { millis: 50 })
    } else {
        none
    };
    let flooded = if occurs(prompt, "__fixture_early_large_output__"@) {
        waited.push(ActionView::Emit(assistant_event(Seq::new(131072, |i: int| 'x'))))
    } else {
        waited
    };
    let named = flooded.push(
        ActionView::Emit(
            init_event(
                if prompt == "__fixture_session_mismatch__"@ {
                    other_session()
                } else {
                    invocation.session
                },
                if prompt == "__fixture_model_mismatch__"@ {
                    "other-model"@
                } else {
                    invocation.model
                },
            ),
        ),
    );
    if prompt == "__fixture_unknown_event__"@ {
        named.push(ActionView::Emit(telemetry_event()))
    } else {
        named
    }
}

/// The text of the result of an ordinary review.
pub open spec fn review_result(
    invocation: InvocationView,
    prompt: Seq<char>,
    records: Result<Seq<Seq<char>>, Seq<char>>,
) -> Result<Seq<char>, Seq<char>> {
    if prompt == "__fixture_large_result__"@ {
        Ok(Seq::new(32768, |i: int| 'r'))
    } else if invocation.resume {
        match records {
            Err(message) => Err("invocation evidence could not be read: "@ + message),
            Ok(records) => resumed(records, invocation.session, prompt),
        }
    } else {
        Ok("complete review: "@ + prompt)
    }
}

/// How the target ends an ordinary review.
pub open spec fn epilogue(
    actions: Seq<ActionView>,
    invocation: InvocationView,
    prompt: Seq<char>,
    records: Result<Seq<Seq<char>>, Seq<char>>,
) -> ScriptView {
    match review_result(invocation, prompt, records) {
        Err(message) => ScriptView {
            actions: actions.push(ActionView::Complain("fake "@ + PROVIDER@ + ": "@ + message)),
            exit: Exit::Failure,
        },
        Ok(text) => ScriptView {
            actions: actions.push(
                ActionView::Emit(result_event(false, invocation.session, Some(text))),
            ),
            exit: Exit::Success,
        },
    }
}

/// What the target does with a whole prompt.
pub open spec fn complete_script(
    invocation: InvocationView,
    prompt: Seq<char>,
    records: Result<Seq<Seq<char>>, Seq<char>>,
) -> ScriptView {
    let actions = prologue(invocation, prompt);
    if prompt == "__fixture_terminal_failure__"@ {
        ScriptView {
            actions: actions.push(ActionView::Complain("fixture provider diagnostic"@)).push(
                ActionView::Emit(
                    result_event(
                        true,
                        invocation.session,
                        Some("fixture provider rejected review"@),
                    ),
                ),
            ).push(ActionView::Sleep { millis: 2000 }),
            exit: Exit::Success,
        }
    } else if prompt == "__fixture_terminal_failure_without_text__"@ {
        ScriptView {
            actions: actions.push(ActionView::Emit(result_event(true, invocation.session, None))),
            exit: Exit::Success,
        }
    } else if prompt == "__fixture_exit_without_result__"@ {
        ScriptView { actions, exit: Exit::Success }
    } else if prompt == "__fixture_split_utf8_result__"@ {
        ScriptView {
            actions: actions.push(
                ActionView::EmitSplit(
                    result_event(
                        false,
                        invocation.session,
                        Some("split UTF-8 review: \u{41f}\u{440}\u{438}\u{432}\u{435}\u{442} \u{1f600}"@),
                    ),
                ),
            ),
            exit: Exit::Success,
        }
    } else if prompt == "__fixture_result_then_fragment__"@ {
        ScriptView {
            actions: actions.push(
                ActionView::Emit(
                    result_event(
                        false,
                        invocation.session,
                        Some("terminal result before fragment"@),
                    ),
                ),
            ).push(ActionView::Write("{\"unterminated\":"@)),
            exit: Exit::Success,
        }
    } else if prompt == "__fixture_diagnostics__"@ {
        epilogue(
            actions.push(ActionView::Emit(retry_event(1, 2, 0))).push(
                ActionView::Sleep { millis: 200 },
            ).push(ActionView::Emit(authentication_event())).push(
                ActionView::Emit(retry_event(3, 2, 0)),
            ),
            invocation,
            prompt,
            records,
        )
    } else if prompt == "__fixture_hold_for_cancel__"@ {
        epilogue(
            actions.push(ActionView::Sleep { millis: 2000 }),
            invocation,
            prompt,
            records,
        )
    } else {
        epilogue(actions, invocation, prompt, records)
    }
}

/// What the target does with one review, where the recorded invocations are given.
pub open spec fn review_script(
    invocation: InvocationView,
    prompt: PromptInputView,
    records: Result<Seq<Seq<char>>, Seq<char>>,
) -> ScriptView {
    let named = seq![ActionView::Emit(init_event(invocation.session, invocation.model))];
    if prompt.marked(PENDING_INPUT_CANCELLATION_MARKER@) {
        ScriptView {
            actions: named.push(ActionView::Sleep { millis: 2000 }),
            exit: Exit::Success,
        }
    } else if prompt.marked(NONZERO_WITHOUT_INPUT_MARKER@) {
        ScriptView { actions: named, exit: Exit::Failure }
    } else {
        match prompt {
            PromptInputView::Complete(prompt) => complete_script(invocation, prompt, records),
            _ => ScriptView { actions: Seq::empty(), exit: Exit::Failure },
        }
    }
}

/// Does what comes before the result.
fn open(invocation: &Invocation, prompt: &str) -> (actions: Vec<Action>)
    ensures
        views(actions@) == prologue(invocation@, prompt@),
{
    let mut actions = idle();
    if same_text(prompt, "__fixture_long_runtime__") {
        act(&mut actions, Action::Sleep { millis: 50 });
    }
    if contains_text(prompt, "__fixture_early_large_output__") {
        let output = repeated('x', 131072);
        act(&mut actions, Action::Emit(assistant(output.as_str())));
    }
    let session = if same_text(prompt, "__fixture_session_mismatch__") {
        "00000000-0000-4000-8000-000000000000"
    } else {
        invocation.session.as_str()
    };
    let model = if same_text(prompt, "__fixture_model_mismatch__") {
        "other-model"
    } else {
        invocation.model.as_str()
    };
    act(&mut actions, Action::Emit(init(session, model)));
    if same_text(prompt, "__fixture_unknown_event__") {
        act(&mut actions, Action::Emit(telemetry()));
    }
    actions
}

/// Ends an ordinary review.
fn close(
    actions: Vec<Action>,
    invocation: &Invocation,
    prompt: &str,
    records: Result<Vec<String>, String>,
) -> (ended: Script)
    ensures
        ended@ == epilogue(
            views(actions@),
            invocation@,
            prompt@,
            match records {
                Ok(records) => Ok(views(records@)),
                Err(message) => Err(message@),
            },
        ),
{
    let mut actions = actions;
    let text = if same_text(prompt, "__fixture_large_result__") {
        Ok(repeated('r', 32768))
    } else if invocation.resume {
        match records {
            Err(message) => Err(
                joined("invocation evidence could not be read: ", message.as_str()),
            ),
            Ok(records) => resumed_result(&records, invocation.session.as_str(), prompt),
        }
    } else {
        Ok(joined("complete review: ", prompt))
    };
    match text {
        Err(message) => {
            let mut complaint = joined3("fake ", PROVIDER, ": ");
            complaint.append(message.as_str());
            act(&mut actions, Action::Complain(complaint));
            script(actions, Exit::Failure)
        },
        Ok(text) => {
            act(
                &mut actions,
                Action::Emit(result(false, invocation.session.as_str(), Some(text.as_str()))),
            );
            script(actions, Exit::Success)
        },
    }
}

/// Answers a whole prompt.
fn complete(
    invocation: &Invocation,
    prompt: &str,
    records: Result<Vec<String>, String>,
) -> (ended: Script)
    ensures
        ended@ == complete_script(
            invocation@,
            prompt@,
            match records {
                Ok(records) => Ok(views(records@)),
                Err(message) => Err(message@),
            },
        ),
{
    let mut actions = open(invocation, prompt);
    let session = invocation.session.as_str();
    if same_text(prompt, "__fixture_terminal_failure__") {
        act(&mut actions, Action::Complain("fixture provider diagnostic".to_owned()));
        act(
            &mut actions,
            Action::Emit(result(true, session, Some("fixture provider rejected review"))),
        );
        act(&mut actions, Action::Sleep { millis: 2000 });
        return script(actions, Exit::Success);
    }
    if same_text(prompt, "__fixture_terminal_failure_without_text__") {
        act(&mut actions, Action::Emit(result(true, session, None)));
        return script(actions, Exit::Success);
    }
    if same_text(prompt, "__fixture_exit_without_result__") {
        return script(actions, Exit::Success);
    }
    if same_text(prompt, "__fixture_split_utf8_result__") {
        act(
            &mut actions,
            Action::EmitSplit(
                result(
                    false,
                    session,
                    Some("split UTF-8 review: \u{41f}\u{440}\u{438}\u{432}\u{435}\u{442} \u{1f600}"),
                ),
            ),
        );
        return script(actions, Exit::Success);
    }
    if same_text(prompt, "__fixture_result_then_fragment__") {
        act(
            &mut actions,
            Action::Emit(result(false, session, Some("terminal result before fragment"))),
        );
        act(&mut actions, Action::Write("{\"unterminated\":".to_owned()));
        return script(actions, Exit::Success);
    }
    if same_text(prompt, "__fixture_diagnostics__") {
        act(&mut actions, Action::Emit(retry(1, 2, 0)));
        act(&mut actions, Action::Sleep { millis: 200 });
        act(&mut actions, Action::Emit(authentication()));
        act(&mut actions, Action::Emit(retry(3, 2, 0)));
        return close(actions, invocation, prompt, records);
    }
    if same_text(prompt, "__fixture_hold_for_cancel__") {
        act(&mut actions, Action::Sleep { millis: 2000 });
    }
    close(actions, invocation, prompt, records)
}

/// Writes the script of one review, where the recorded invocations are given, or why they could not
/// be read.
pub fn review(
    invocation: &Invocation,
    prompt: &PromptInput,
    records: Result<Vec<String>, String>,
) -> (ended: Script)
    ensures
        ended@ == review_script(
            invocation@,
            prompt@,
            match records {
                Ok(records) => Ok(views(records@)),
                Err(message) => Err(message@),
            },
        ),
{
    let pending = prompt.matches_marker(PENDING_INPUT_CANCELLATION_MARKER);
    let nonzero = prompt.matches_marker(NONZERO_WITHOUT_INPUT_MARKER);
    if pending || nonzero {
        let mut actions = idle();
        act(
            &mut actions,
            Action::Emit(init(invocation.session.as_str(), invocation.model.as_str())),
        );
        proof {
            assert(views(actions@) =~= seq![
                ActionView::Emit(init_event(invocation@.session, invocation@.model)),
            ]);
        }
        if pending {
            act(&mut actions, Action::Sleep { millis: 2000 });
            return script(actions, Exit::Success);
        }
        return script(actions, Exit::Failure);
    }
    match prompt {
        PromptInput::Complete(prompt) => complete(invocation, prompt.as_str(), records),
        _ => script(idle(), Exit::Failure),
    }
}

} // verus!
