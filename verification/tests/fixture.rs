//! The deterministic target.

use aiop::contract::target::{
    TargetCommand, TargetIntent, TargetLiveTurn, TargetOperationId, TargetSessionId, TargetTurnId,
    PROVIDER,
};
use aiop::fixture::event;
use aiop::fixture::invocation::{Invocation, LiveInvocation, LiveTurn};
use aiop::fixture::live::play;
use aiop::fixture::prompt::{
    begin_prompt, finish_prompt, required_prefix, PromptInput, PromptStart,
};
use aiop::fixture::resume::resumed_result;
use aiop::fixture::review::review;
use aiop::fixture::script::{split_point, Action, Exit};
use aiop::json::Json;
use aiop::target::command::build;
use aiop::target::conversation_input::encode;

fn line(intent: TargetIntent) -> Vec<String> {
    build(&TargetCommand {
        operation_id: TargetOperationId(1),
        working_directory: "/workspace".to_owned(),
        executable: "target".to_owned(),
        expected_model: "opus".to_owned(),
        intent,
        session_id: TargetSessionId(0),
        prompt: "prompt".to_owned(),
    })
}

const SESSION: &str = "00000000-0000-0000-0000-000000000000";

fn invocation(resume: bool) -> Invocation {
    Invocation { session: SESSION.to_owned(), model: "opus".to_owned(), resume }
}

#[test]
fn the_exact_command_line_is_accepted() {
    assert_eq!(Invocation::parse(&line(TargetIntent::New)), Ok(invocation(false)));
    let resumed = TargetIntent::ResumeExact { session_id: TargetSessionId(0) };
    assert_eq!(Invocation::parse(&line(resumed)), Ok(invocation(true)));
    let mut short = line(TargetIntent::New);
    short.pop();
    assert_eq!(
        Invocation::parse(&short),
        Err(format!("{PROVIDER} argv did not have the exact supported length"))
    );
    let mut changed = line(TargetIntent::New);
    changed[0] = "--other".to_owned();
    assert_eq!(
        Invocation::parse(&changed),
        Err(format!("{PROVIDER} argv did not match the exact Opus read-only profile"))
    );
    let mut unselected = line(TargetIntent::New);
    let last = unselected.len() - 2;
    unselected[last] = "--continue".to_owned();
    assert_eq!(
        Invocation::parse(&unselected),
        Err(format!("{PROVIDER} argv did not select new or exact resume"))
    );
    assert!(LiveInvocation::parse(&line(TargetIntent::New)).is_err());
}

#[test]
fn a_written_turn_is_read_back() {
    let frame = encode(&TargetLiveTurn {
        turn_id: TargetTurnId(0),
        position: 1,
        prompt: "hello\n".to_owned(),
    });
    assert_eq!(
        LiveTurn::parse(&frame),
        Ok(LiveTurn { uuid: SESSION.to_owned(), prompt: "hello\n".to_owned() })
    );
    assert_eq!(
        LiveTurn::parse("{\"type\":\"other\"}"),
        Err("live input event was not a user message".to_owned())
    );
    assert_eq!(
        LiveTurn::parse("{\"type\":\"user\"}"),
        Err("live input omitted uuid".to_owned())
    );
    assert_eq!(
        LiveTurn::parse("{\"type\":\"user\",\"uuid\":\"u\",\"message\":{\"content\":[]}}"),
        Err("live input omitted text content".to_owned())
    );
}

#[test]
fn a_prompt_is_a_marker_or_a_text() {
    assert_eq!(required_prefix(), "__fixture_nonzero_without_input__".len());
    assert_eq!(
        begin_prompt(b"__fixture_pending_input_cancel__xxxx".to_vec()),
        Ok(PromptStart::Marked(PromptInput::PendingInputCancellation))
    );
    assert_eq!(
        begin_prompt(b"__fixture_nonzero_without_input__".to_vec()),
        Ok(PromptStart::Marked(PromptInput::NonzeroWithoutInput))
    );
    assert_eq!(
        begin_prompt(b"plain".to_vec()),
        Ok(PromptStart::Partial("plain".to_owned()))
    );
    assert!(begin_prompt(vec![0xff]).is_err());
    assert_eq!(
        finish_prompt("plain".to_owned(), " text"),
        Ok(PromptInput::Complete("plain text".to_owned()))
    );
    assert_eq!(finish_prompt(String::new(), ""), Err("prompt stdin was empty".to_owned()));
    let marker = PromptInput::PendingInputCancellation;
    assert_eq!(marker.recorded(), "__fixture_pending_input_cancel__");
    assert!(marker.matches_marker("__fixture_pending_input_cancel__"));
}

#[test]
fn a_resumed_review_follows_the_first_other_prompt() {
    let record = |session: &str, prompt: &str| {
        format!("{{\"argv\":[\"--session-id\",\"{session}\"],\"prompt\":\"{prompt}\"}}")
    };
    let records = vec![
        record("other", "elsewhere"),
        record(SESSION, "first"),
        record(SESSION, "second"),
    ];
    assert_eq!(
        resumed_result(&records, SESSION, "second"),
        Ok("resume follows prior content: first; second".to_owned())
    );
    assert_eq!(
        resumed_result(&records, "unknown", "second"),
        Ok("resume has no prior content for session: second".to_owned())
    );
    assert_eq!(
        resumed_result(&vec!["{}".to_owned()], SESSION, "second"),
        Err("invocation evidence omitted prompt".to_owned())
    );
    assert!(resumed_result(&vec!["{".to_owned()], SESSION, "second")
        .expect_err("the record is not JSON")
        .starts_with("invocation evidence was invalid JSON: "));
}

fn complete(prompt: &str) -> PromptInput {
    PromptInput::Complete(prompt.to_owned())
}

#[test]
fn a_review_emits_its_identity_and_its_result() {
    let script = review(&invocation(false), &complete("look"), Ok(Vec::new()));
    assert_eq!(script.exit, Exit::Success);
    assert_eq!(
        script.actions.first(),
        Some(&Action::Emit(event::init(SESSION, "opus")))
    );
    assert_eq!(
        script.actions.last(),
        Some(&Action::Emit(event::result(false, SESSION, Some("complete review: look"))))
    );
    let unread = review(&invocation(true), &complete("look"), Err("no file".to_owned()));
    assert_eq!(unread.exit, Exit::Failure);
    assert_eq!(
        unread.actions.last(),
        Some(&Action::Complain(
            format!("fake {PROVIDER}: invocation evidence could not be read: no file")
        ))
    );
    let failing =
        review(&invocation(false), &PromptInput::NonzeroWithoutInput, Ok(Vec::new()));
    assert_eq!(failing.exit, Exit::Failure);
    assert_eq!(failing.actions, vec![Action::Emit(event::init(SESSION, "opus"))]);
}

#[test]
fn a_turn_is_played_from_queue_to_completion() {
    let turn = LiveTurn { uuid: "turn".to_owned(), prompt: "hello".to_owned() };
    let invocation = LiveInvocation { session: SESSION.to_owned(), model: "opus".to_owned() };
    let script = play(&invocation, &turn);
    assert_eq!(script.exit, Exit::Continue);
    assert_eq!(
        script.actions.first(),
        Some(&Action::Emit(event::lifecycle("turn", SESSION, "queued")))
    );
    assert_eq!(
        script.actions.last(),
        Some(&Action::Emit(event::lifecycle("turn", SESSION, "completed")))
    );
    assert!(script.actions.contains(&Action::Emit(event::delta(SESSION, "hello"))));
    assert!(script
        .actions
        .contains(&Action::Emit(event::live_result(false, SESSION, "live result: hello"))));
    let exiting =
        LiveTurn { uuid: "turn".to_owned(), prompt: "__fixture_live_unexpected_exit__".to_owned() };
    assert_ne!(play(&invocation, &exiting).exit, Exit::Continue);
}

#[test]
fn a_split_falls_inside_the_character() {
    let text = "ab\u{1f600}c";
    assert_eq!(split_point(text.as_bytes()), Some(3));
    assert_eq!(split_point(b"plain"), None);
}

#[test]
fn events_are_written_with_their_names_in_order() {
    assert_eq!(
        event::retry(1, 2, 0).get("retry_delay_ms"),
        Some(&Json::Number(Some(0)))
    );
    for written in [
        event::init(SESSION, "opus"),
        event::telemetry(),
        event::assistant("text"),
        event::retry(1, 2, 0),
        event::authentication(),
        event::result(true, SESSION, None),
        event::lifecycle("turn", SESSION, "queued"),
        event::replay("turn", SESSION, "hello"),
        event::tool_use(SESSION),
        event::tool_result(SESSION, true),
        event::delta(SESSION, "hello"),
        event::live_result(false, SESSION, "done"),
    ] {
        assert!(written.is_writable());
    }
}
