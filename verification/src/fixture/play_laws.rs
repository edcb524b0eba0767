//! What the scripted target tells, read back by those who read it, and what it does with each
//! prompt.

use vstd::prelude::*;

use crate::contract::target::{TargetDiagnostic, TargetIntent, TargetSessionId, PROVIDER};
use crate::fixture::event::{
    authentication_event, delta_event, init_event, lifecycle_event, live_result_event,
    replay_event, result_event, retry_event, tool_result_event, tool_use_event,
};
use crate::fixture::invocation::{
    invoked, live_invoked, turn_told, InvocationView, LiveInvocationView, LiveTurnView,
};
use crate::fixture::live::turn_script;
use crate::fixture::prompt::{
    PromptInputView, NONZERO_WITHOUT_INPUT_MARKER, PENDING_INPUT_CANCELLATION_MARKER,
};
use crate::fixture::resume::resumed;
use crate::fixture::review::review_script;
use crate::fixture::script::{ActionView, Exit, ScriptView};
use crate::identifier::uuid_text;
use crate::json::{first_member, json_parsed, JsonView};
use crate::target::command::{arguments, fixed_arguments, InvocationMode};
use crate::target::conversation_input::turn_frame;
use crate::target::launch_laws::turn_is_framed_as_a_user_message;
use crate::target::stream::diagnostic_told;
use crate::text::occurs;

verus! {

/// A member that was appended is found where no earlier one has its name.
proof fn lemma_appended(
    members: Seq<(Seq<char>, JsonView)>,
    added: (Seq<char>, JsonView),
    name: Seq<char>,
)
    ensures
        first_member(members.push(added), name) == (if first_member(members, name) is Some {
            first_member(members, name)
        } else if added.0 == name {
            Some(added.1)
        } else {
            None
        }),
    decreases members.len(),
{
    let all = members.push(added);
    if members.len() == 0 {
        assert(all[0] == added);
        assert(all.drop_first() =~= Seq::empty());
        reveal_with_fuel(first_member, 2);
    } else {
        lemma_appended(members.drop_first(), added, name);
        assert(all[0] == members[0]);
        assert(all.drop_first() =~= members.drop_first().push(added));
    }
}

/// A member of a value that got one more.
proof fn lemma_with(value: JsonView, added: Seq<char>, content: JsonView, name: Seq<char>)
    requires
        value is Object,
    ensures
        value.with(added, content) is Object,
        value.with(added, content).member(name) == (if value.member(name) is Some {
            value.member(name)
        } else if added == name {
            Some(content)
        } else {
            None
        }),
{
    lemma_appended(value->Object_0, (added, content), name);
}

/// The names of members that are told apart.
proof fn lemma_names()
    ensures
        "attempt"@ != "max_retries"@,
        "attempt"@ != "retry_delay_ms"@,
        "attempt"@ != "subtype"@,
        "attempt"@ != "type"@,
        "max_retries"@ != "retry_delay_ms"@,
        "max_retries"@ != "subtype"@,
        "max_retries"@ != "type"@,
        "retry_delay_ms"@ != "subtype"@,
        "retry_delay_ms"@ != "type"@,
        "subtype"@ != "type"@,
        "error"@ != "type"@,
        "is_api_error_message"@ != "type"@,
        "error"@ != "is_api_error_message"@,
        "is_error"@ != "result"@,
        "is_error"@ != "session_id"@,
        "is_error"@ != "type"@,
        "is_error"@ != "uuid"@,
        "result"@ != "session_id"@,
        "result"@ != "type"@,
        "result"@ != "uuid"@,
        "session_id"@ != "type"@,
        "session_id"@ != "uuid"@,
        "session_id"@ != "subtype"@,
        "session_id"@ != "state"@,
        "type"@ != "uuid"@,
        "claude_code_version"@ != "model"@,
        "claude_code_version"@ != "session_id"@,
        "claude_code_version"@ != "subtype"@,
        "claude_code_version"@ != "type"@,
        "model"@ != "session_id"@,
        "model"@ != "subtype"@,
        "model"@ != "type"@,
        "command_uuid"@ != "session_id"@,
        "command_uuid"@ != "state"@,
        "command_uuid"@ != "type"@,
        "state"@ != "type"@,
{
    reveal_strlit("attempt");
    reveal_strlit("max_retries");
    reveal_strlit("retry_delay_ms");
    reveal_strlit("subtype");
    reveal_strlit("type");
    reveal_strlit("error");
    reveal_strlit("is_api_error_message");
    reveal_strlit("is_error");
    reveal_strlit("result");
    reveal_strlit("session_id");
    reveal_strlit("uuid");
    reveal_strlit("state");
    reveal_strlit("claude_code_version");
    reveal_strlit("model");
    reveal_strlit("command_uuid");
    assert("attempt"@.len() == 7 && "subtype"@.len() == 7 && "attempt"@[0] == 'a' && "subtype"@[0]
        == 's');
    assert("max_retries"@.len() == 11 && "retry_delay_ms"@.len() == 14 && "type"@.len() == 4);
    assert("error"@.len() == 5 && "is_api_error_message"@.len() == 20 && "is_error"@.len() == 8);
    assert("result"@.len() == 6 && "session_id"@.len() == 10 && "uuid"@.len() == 4);
    assert("type"@[0] == 't' && "uuid"@[0] == 'u');
    assert("state"@.len() == 5 && "model"@.len() == 5 && "claude_code_version"@.len() == 19);
    assert("command_uuid"@.len() == 12);
}

/// The initialization names its session, its model and its version.
pub proof fn initialization_names_what_it_claims(session: Seq<char>, model: Seq<char>)
    ensures
        ({
            let event = init_event(session, model);
            &&& event.member("type"@) == Some(JsonView::Text("system"@))
            &&& event.member("subtype"@) == Some(JsonView::Text("init"@))
            &&& event.member("session_id"@) == Some(JsonView::Text(session))
            &&& event.member("model"@) == Some(JsonView::Text(model))
            &&& event.member("claude_code_version"@) == Some(JsonView::Text("fixture-1"@))
        }),
{
    lemma_names();
    let none = JsonView::object();
    let version = none.with_text("claude_code_version"@, "fixture-1"@);
    let named = version.with_text("model"@, model);
    let owned = named.with_text("session_id"@, session);
    let kind = owned.with_text("subtype"@, "init"@);
    let names = seq!["type"@, "subtype"@, "session_id"@, "model"@, "claude_code_version"@];
    assert forall|i: int| 0 <= i < 5 implies init_event(session, model).member(
        #[trigger] names[i],
    ) == (if i == 0 {
        Some(JsonView::Text("system"@))
    } else if i == 1 {
        Some(JsonView::Text("init"@))
    } else if i == 2 {
        Some(JsonView::Text(session))
    } else if i == 3 {
        Some(JsonView::Text(model))
    } else {
        Some(JsonView::Text("fixture-1"@))
    }) by {
        lemma_with(none, "claude_code_version"@, JsonView::Text("fixture-1"@), names[i]);
        lemma_with(version, "model"@, JsonView::Text(model), names[i]);
        lemma_with(named, "session_id"@, JsonView::Text(session), names[i]);
        lemma_with(owned, "subtype"@, JsonView::Text("init"@), names[i]);
        lemma_with(kind, "type"@, JsonView::Text("system"@), names[i]);
    }
    assert(names[0] == "type"@ && names[1] == "subtype"@ && names[2] == "session_id"@ && names[3]
        == "model"@ && names[4] == "claude_code_version"@);
}

/// The result of a review says whether it is an error, names its session, and holds its text where
/// it has one.
pub proof fn result_names_what_it_claims(
    is_error: bool,
    session: Seq<char>,
    result: Option<Seq<char>>,
)
    ensures
        ({
            let event = result_event(is_error, session, result);
            &&& event.member("type"@) == Some(JsonView::Text("result"@))
            &&& event.member("is_error"@) == Some(JsonView::Bool(is_error))
            &&& event.member("session_id"@) == Some(JsonView::Text(session))
            &&& result matches Some(text) ==> event.member("result"@) == Some(JsonView::Text(text))
            &&& result is None ==> event.member("result"@) is None
        }),
{
    lemma_names();
    let none = JsonView::object();
    let head = none.with("is_error"@, JsonView::Bool(is_error));
    let told = match result {
        Some(result) => head.with_text("result"@, result),
        None => head,
    };
    let owned = told.with_text("session_id"@, session);
    let names = seq!["type"@, "is_error"@, "session_id"@, "result"@];
    assert forall|i: int| 0 <= i < 4 implies result_event(is_error, session, result).member(
        #[trigger] names[i],
    ) == (if i == 0 {
        Some(JsonView::Text("result"@))
    } else if i == 1 {
        Some(JsonView::Bool(is_error))
    } else if i == 2 {
        Some(JsonView::Text(session))
    } else {
        match result {
            Some(text) => Some(JsonView::Text(text)),
            None => None,
        }
    }) by {
        lemma_with(none, "is_error"@, JsonView::Bool(is_error), names[i]);
        if result is Some {
            lemma_with(head, "result"@, JsonView::Text(result->Some_0), names[i]);
        }
        lemma_with(told, "session_id"@, JsonView::Text(session), names[i]);
        lemma_with(owned, "type"@, JsonView::Text("result"@), names[i]);
    }
    assert(names[0] == "type"@ && names[1] == "is_error"@ && names[2] == "session_id"@ && names[3]
        == "result"@);
}

/// The retries that the scripted target tells are read as retries with the same numbers, where they
/// are numbered from one and within their maximum; and its refused authentication as one.
pub proof fn scripted_difficulties_are_told(attempt: u64, max_retries: u64, retry_delay_ms: u64)
    ensures
        1 <= attempt <= max_retries ==> diagnostic_told(
            retry_event(attempt, max_retries, retry_delay_ms),
        ) == Some(TargetDiagnostic::ProviderRetrying { attempt, max_retries, retry_delay_ms }),
        !(1 <= attempt <= max_retries) ==> diagnostic_told(
            retry_event(attempt, max_retries, retry_delay_ms),
        ) == Some(TargetDiagnostic::DiagnosticUnclassified),
        diagnostic_told(authentication_event()) == Some(TargetDiagnostic::AuthenticationFailed),
{
    lemma_names();
    let none = JsonView::object();
    let first = none.with("attempt"@, JsonView::Number(Some(attempt)));
    let second = first.with("max_retries"@, JsonView::Number(Some(max_retries)));
    let third = second.with("retry_delay_ms"@, JsonView::Number(Some(retry_delay_ms)));
    let fourth = third.with_text("subtype"@, "api_retry"@);
    let names = seq![
        "type"@,
        "subtype"@,
        "attempt"@,
        "max_retries"@,
        "retry_delay_ms"@,
        "error"@,
        "is_api_error_message"@,
    ];
    assert forall|i: int| 0 <= i < 5 implies retry_event(
        attempt,
        max_retries,
        retry_delay_ms,
    ).member(#[trigger] names[i]) == (if i == 0 {
        Some(JsonView::Text("system"@))
    } else if i == 1 {
        Some(JsonView::Text("api_retry"@))
    } else if i == 2 {
        Some(JsonView::Number(Some(attempt)))
    } else if i == 3 {
        Some(JsonView::Number(Some(max_retries)))
    } else {
        Some(JsonView::Number(Some(retry_delay_ms)))
    }) by {
        lemma_with(none, "attempt"@, JsonView::Number(Some(attempt)), names[i]);
        lemma_with(first, "max_retries"@, JsonView::Number(Some(max_retries)), names[i]);
        lemma_with(second, "retry_delay_ms"@, JsonView::Number(Some(retry_delay_ms)), names[i]);
        lemma_with(third, "subtype"@, JsonView::Text("api_retry"@), names[i]);
        lemma_with(fourth, "type"@, JsonView::Text("system"@), names[i]);
    }
    assert(names[0] == "type"@ && names[1] == "subtype"@ && names[2] == "attempt"@ && names[3]
        == "max_retries"@ && names[4] == "retry_delay_ms"@);
    let error = none.with_text("error"@, "authentication_failed"@);
    let flagged = error.with("is_api_error_message"@, JsonView::Bool(true));
    assert forall|i: int| i == 0 || i == 5 || i == 6 implies authentication_event().member(
        #[trigger] names[i],
    ) == (if i == 0 {
        Some(JsonView::Text("assistant"@))
    } else if i == 5 {
        Some(JsonView::Text("authentication_failed"@))
    } else {
        Some(JsonView::Bool(true))
    }) by {
        lemma_with(none, "error"@, JsonView::Text("authentication_failed"@), names[i]);
        lemma_with(error, "is_api_error_message"@, JsonView::Bool(true), names[i]);
        lemma_with(flagged, "type"@, JsonView::Text("assistant"@), names[i]);
    }
    assert(names[5] == "error"@ && names[6] == "is_api_error_message"@);
    reveal_strlit("system");
    reveal_strlit("assistant");
    assert("system"@.len() == 6 && "assistant"@.len() == 9);
}

/// A turn that was framed for the target is read by the scripted target as the same turn.
pub proof fn framed_turn_is_read_back(turn_id: u128, prompt: Seq<char>)
    ensures
        turn_told(turn_frame(turn_id, prompt)) == Ok::<_, Seq<char>>(
            LiveTurnView { uuid: uuid_text(turn_id), prompt },
        ),
{
    turn_is_framed_as_a_user_message(turn_id, prompt);
}

/// The command line of a review or of a conversation is read by the scripted target as what it was
/// built for.
pub proof fn built_command_line_is_read_back(intent: TargetIntent, intended: TargetSessionId)
    ensures
        ({
            let session = match intent {
                TargetIntent::New => uuid_text(intended.0),
                TargetIntent::ResumeExact { session_id } => uuid_text(session_id.0),
            };
            &&& invoked(arguments(InvocationMode::OneShot, intent, intended)) == Ok::<_, Seq<char>>(
                InvocationView {
                    session,
                    model: "opus"@,
                    resume: intent is ResumeExact,
                },
            )
            &&& live_invoked(arguments(InvocationMode::Live, intent, intended)) == Ok::<
                _,
                Seq<char>,
            >(LiveInvocationView { session, model: "opus"@ })
        }),
{
    reveal_strlit("--session-id");
    reveal_strlit("--resume");
    assert("--session-id"@.len() == 12 && "--resume"@.len() == 8);
    let one = arguments(InvocationMode::OneShot, intent, intended);
    let live = arguments(InvocationMode::Live, intent, intended);
    assert(one.take(16) =~= fixed_arguments(InvocationMode::OneShot));
    assert(live.take(20) =~= fixed_arguments(InvocationMode::Live));
}

/// A command line of another length is refused.
pub proof fn other_command_line_is_refused(line: Seq<Seq<char>>)
    ensures
        line.len() != 18 ==> invoked(line) == Err::<InvocationView, _>(
            PROVIDER@ + " argv did not have the exact supported length"@,
        ),
        line.len() != 22 ==> live_invoked(line) == Err::<LiveInvocationView, _>(
            PROVIDER@ + " argv did not match the exact structured live profile"@,
        ),
{
}

/// Whether a prompt asks the scripted target for nothing special.
pub open spec fn unscripted(prompt: Seq<char>) -> bool {
    &&& !PENDING_INPUT_CANCELLATION_MARKER@.is_prefix_of(prompt)
    &&& !NONZERO_WITHOUT_INPUT_MARKER@.is_prefix_of(prompt)
    &&& !occurs(prompt, "__fixture_early_large_output__"@)
    &&& prompt != "__fixture_long_runtime__"@
    &&& prompt != "__fixture_session_mismatch__"@
    &&& prompt != "__fixture_model_mismatch__"@
    &&& prompt != "__fixture_unknown_event__"@
    &&& prompt != "__fixture_large_result__"@
    &&& prompt != "__fixture_terminal_failure__"@
    &&& prompt != "__fixture_terminal_failure_without_text__"@
    &&& prompt != "__fixture_exit_without_result__"@
    &&& prompt != "__fixture_split_utf8_result__"@
    &&& prompt != "__fixture_result_then_fragment__"@
    &&& prompt != "__fixture_diagnostics__"@
    &&& prompt != "__fixture_hold_for_cancel__"@
}

/// An ordinary prompt of a new session is answered with the session, the model and a result that
/// tells the prompt, and the target ends well.
pub proof fn ordinary_prompt_is_answered(
    invocation: InvocationView,
    prompt: Seq<char>,
    records: Result<Seq<Seq<char>>, Seq<char>>,
)
    requires
        unscripted(prompt),
        !invocation.resume,
    ensures
        review_script(invocation, PromptInputView::Complete(prompt), records) == (ScriptView {
            actions: seq![
                ActionView::Emit(init_event(invocation.session, invocation.model)),
                ActionView::Emit(
                    result_event(false, invocation.session, Some("complete review: "@ + prompt)),
                ),
            ],
            exit: Exit::Success,
        }),
{
    let script = review_script(invocation, PromptInputView::Complete(prompt), records);
    assert(script.actions =~= seq![
        ActionView::Emit(init_event(invocation.session, invocation.model)),
        ActionView::Emit(
            result_event(false, invocation.session, Some("complete review: "@ + prompt)),
        ),
    ]);
}

/// An ordinary prompt of a resumed session is answered with what the session was asked before; where
/// that cannot be told the target complains and ends badly.
pub proof fn resumed_prompt_is_answered(
    invocation: InvocationView,
    prompt: Seq<char>,
    records: Seq<Seq<char>>,
    unreadable: Seq<char>,
)
    requires
        unscripted(prompt),
        invocation.resume,
    ensures
        ({
            let named = ActionView::Emit(init_event(invocation.session, invocation.model));
            let script = review_script(
                invocation,
                PromptInputView::Complete(prompt),
                Ok(records),
            );
            let complaint = review_script(
                invocation,
                PromptInputView::Complete(prompt),
                Err(unreadable),
            );
            &&& resumed(records, invocation.session, prompt) matches Ok(text) ==> script.actions
                =~= seq![
                named,
                ActionView::Emit(result_event(false, invocation.session, Some(text))),
            ] && script.exit is Success
            &&& resumed(records, invocation.session, prompt) matches Err(message)
                ==> script.actions =~= seq![
                named,
                ActionView::Complain("fake "@ + PROVIDER@ + ": "@ + message),
            ] && script.exit is Failure
            &&& complaint.actions =~= seq![
                named,
                ActionView::Complain(
                    "fake "@ + PROVIDER@ + ": "@ + ("invocation evidence could not be read: "@
                        + unreadable),
                ),
            ]
            &&& complaint.exit is Failure
        }),
{
}

/// Whether a recorded invocation was of a session, with a prompt.
pub open spec fn records_prompt(record: JsonView, session: Seq<char>, prior: Seq<char>) -> bool {
    &&& record.member("prompt"@) == Some(JsonView::Text(prior))
    &&& record.member("argv"@) matches Some(JsonView::Array(argv)) && argv.contains(
        JsonView::Text(session),
    )
}

/// The first recorded invocation decides a resumed review where it was of the same session with
/// another prompt; where it was of another session or of the same prompt the next one is read, and
/// after the last one the session has no prior content.
pub proof fn earlier_prompt_is_remembered(
    line: Seq<char>,
    rest: Seq<Seq<char>>,
    record: JsonView,
    session: Seq<char>,
    prompt: Seq<char>,
    prior: Seq<char>,
)
    requires
        json_parsed(line) == Ok::<_, Seq<char>>(record),
        record.member("prompt"@) == Some(JsonView::Text(prior)),
    ensures
        records_prompt(record, session, prior) && prior != prompt ==> resumed(
            seq![line] + rest,
            session,
            prompt,
        ) == Ok::<_, Seq<char>>("resume follows prior content: "@ + prior + "; "@ + prompt),
        !records_prompt(record, session, prior) || prior == prompt ==> resumed(
            seq![line] + rest,
            session,
            prompt,
        ) == resumed(rest, session, prompt),
        resumed(Seq::empty(), session, prompt) == Ok::<_, Seq<char>>(
            "resume has no prior content for session: "@ + prompt,
        ),
{
    let all = seq![line] + rest;
    assert(all[0] == line);
    assert(all.drop_first() =~= rest);
    match record.member("argv"@) {
        Some(JsonView::Array(argv)) => {
            if argv.contains(JsonView::Text(session)) {
                let i = choose|i: int| 0 <= i < argv.len() && argv[i] == JsonView::Text(session);
                assert(argv[i] == JsonView::Text(session));
            }
        },
        _ => {},
    }
}

/// A recorded invocation without a prompt, or that is no JSON, is told instead of a result.
pub proof fn unreadable_record_is_told(
    line: Seq<char>,
    rest: Seq<Seq<char>>,
    session: Seq<char>,
    prompt: Seq<char>,
)
    ensures
        json_parsed(line) matches Err(message) ==> resumed(seq![line] + rest, session, prompt)
            == Err::<Seq<char>, _>("invocation evidence was invalid JSON: "@ + message),
        json_parsed(line) matches Ok(record) ==> (record.text_of("prompt"@) is None ==> resumed(
            seq![line] + rest,
            session,
            prompt,
        ) == Err::<Seq<char>, _>("invocation evidence omitted prompt"@)),
{
    let all = seq![line] + rest;
    assert(all[0] == line);
    assert(all.drop_first() =~= rest);
}

/// A prompt that was not read to its end holds the target, or fails it, after it named its session.
pub proof fn unread_prompt_is_played(
    invocation: InvocationView,
    records: Result<Seq<Seq<char>>, Seq<char>>,
)
    ensures
        ({
            let named = ActionView::Emit(init_event(invocation.session, invocation.model));
            let pending = review_script(
                invocation,
                PromptInputView::PendingInputCancellation,
                records,
            );
            let failing = review_script(
                invocation,
                PromptInputView::NonzeroWithoutInput,
                records,
            );
            &&& pending.actions =~= seq![named, ActionView::Sleep { millis: 2000 }]
            &&& pending.exit is Success
            &&& failing.actions =~= seq![named]
            &&& failing.exit is Failure
        }),
{
    reveal_strlit("__fixture_pending_input_cancel__");
    reveal_strlit("__fixture_nonzero_without_input__");
    assert(PENDING_INPUT_CANCELLATION_MARKER@.len() == 32);
    assert(NONZERO_WITHOUT_INPUT_MARKER@.len() == 33);
}

/// Whether a turn asks the scripted target for nothing special.
pub open spec fn unscripted_turn(prompt: Seq<char>) -> bool {
    &&& prompt != "__fixture_live_session_mismatch__"@
    &&& prompt != "__fixture_live_model_mismatch__"@
    &&& prompt != "__fixture_live_content_mismatch__"@
    &&& prompt != "__fixture_live_uuid_mismatch__"@
    &&& prompt != "__fixture_live_hold__"@
    &&& prompt != "__fixture_live_invalid_json__"@
    &&& prompt != "__fixture_live_unexpected_exit__"@
    &&& prompt != "__fixture_live_lifecycle_order_mismatch__"@
    &&& prompt != "__fixture_live_result_without_started__"@
    &&& prompt != "__fixture_live_malformed_tool_result__"@
    &&& prompt != "__fixture_live_unknown_lifecycle__"@
    &&& prompt != "__fixture_live_provider_failure__"@
    &&& prompt != "__fixture_live_hold_after_start__"@
}

/// An ordinary turn is queued, started, replayed, worked on with one tool, told and completed, in
/// this order, under its own identity, and the target waits for the next one.
pub proof fn ordinary_turn_is_played(invocation: LiveInvocationView, turn: LiveTurnView)
    requires
        unscripted_turn(turn.prompt),
    ensures
        turn_script(invocation, turn) == (ScriptView {
            actions: seq![
                ActionView::Emit(lifecycle_event(turn.uuid, invocation.session, "queued"@)),
                ActionView::Emit(lifecycle_event(turn.uuid, invocation.session, "started"@)),
                ActionView::Emit(init_event(invocation.session, invocation.model)),
                ActionView::Emit(replay_event(turn.uuid, invocation.session, turn.prompt)),
                ActionView::Emit(tool_use_event(invocation.session)),
                ActionView::Emit(tool_result_event(invocation.session, false)),
                ActionView::Emit(delta_event(invocation.session, turn.prompt)),
                ActionView::Emit(
                    live_result_event(
                        false,
                        invocation.session,
                        "live result: "@ + turn.prompt,
                    ),
                ),
                ActionView::Emit(lifecycle_event(turn.uuid, invocation.session, "completed"@)),
            ],
            exit: Exit::Continue,
        }),
{
    let actions = turn_script(invocation, turn).actions;
    assert(actions.len() == 9);
    assert(actions =~= seq![
        ActionView::Emit(lifecycle_event(turn.uuid, invocation.session, "queued"@)),
        ActionView::Emit(lifecycle_event(turn.uuid, invocation.session, "started"@)),
        ActionView::Emit(init_event(invocation.session, invocation.model)),
        ActionView::Emit(replay_event(turn.uuid, invocation.session, turn.prompt)),
        ActionView::Emit(tool_use_event(invocation.session)),
        ActionView::Emit(tool_result_event(invocation.session, false)),
        ActionView::Emit(delta_event(invocation.session, turn.prompt)),
        ActionView::Emit(
            live_result_event(false, invocation.session, "live result: "@ + turn.prompt),
        ),
        ActionView::Emit(lifecycle_event(turn.uuid, invocation.session, "completed"@)),
    ]);
}

/// A step in the life of a turn names the turn, its session and its state.
pub proof fn lifecycle_names_what_it_claims(turn: Seq<char>, session: Seq<char>, state: Seq<char>)
    ensures
        ({
            let event = lifecycle_event(turn, session, state);
            &&& event.member("type"@) == Some(JsonView::Text("command_lifecycle"@))
            &&& event.member("command_uuid"@) == Some(JsonView::Text(turn))
            &&& event.member("session_id"@) == Some(JsonView::Text(session))
            &&& event.member("state"@) == Some(JsonView::Text(state))
        }),
{
    lemma_names();
    let none = JsonView::object();
    let first = none.with_text("command_uuid"@, turn);
    let second = first.with_text("session_id"@, session);
    let third = second.with_text("state"@, state);
    let names = seq!["type"@, "command_uuid"@, "session_id"@, "state"@];
    assert forall|i: int| 0 <= i < 4 implies lifecycle_event(turn, session, state).member(
        #[trigger] names[i],
    ) == (if i == 0 {
        Some(JsonView::Text("command_lifecycle"@))
    } else if i == 1 {
        Some(JsonView::Text(turn))
    } else if i == 2 {
        Some(JsonView::Text(session))
    } else {
        Some(JsonView::Text(state))
    }) by {
        lemma_with(none, "command_uuid"@, JsonView::Text(turn), names[i]);
        lemma_with(first, "session_id"@, JsonView::Text(session), names[i]);
        lemma_with(second, "state"@, JsonView::Text(state), names[i]);
        lemma_with(third, "type"@, JsonView::Text("command_lifecycle"@), names[i]);
    }
    assert(names[0] == "type"@ && names[1] == "command_uuid"@ && names[2] == "session_id"@
        && names[3] == "state"@);
}

} // verus!
