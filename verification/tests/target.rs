//! One review and one conversation of the target, step by step.

use aiop::contract::target::{
    TargetCommand, TargetDiagnostic, TargetIntent, TargetLiveObservation, TargetLiveStart,
    TargetLiveStartError, TargetLiveTurn, TargetOperationId, TargetOutcome, TargetSessionId,
    TargetTurnId, PROVIDER,
};
use aiop::target::child::{
    child_found, child_removed, stop_unregistered, ChildExitEvidence, ChildRegistrationError,
};
use aiop::target::command::{build, build_live};
use aiop::target::conversation::{
    cleanup, close_delivered, observe, runtime_found, runtime_registered, runtime_removed,
    CleanupMode, LiveAdmission, ObserverEvent, ObserverStep,
};
use aiop::target::conversation_codec::{Codec, CodecError};
use aiop::target::conversation_input::{
    encode, running_permission, InputQueue, InputStep, WriterCommand,
};
use aiop::target::execution::{
    begin, conclude, execute, output_unavailable, prompt_decides, PromptInput, ReviewEvent,
    ReviewFailures, ReviewStep,
};
use aiop::target::live_start::{advance, LiveStartEvent, LiveStartStep, StopTail};
use aiop::target::output::{split_lines, with_stderr, OutputBuffer};
use aiop::target::stream::{Evidence, InterpretationError};
use aiop::target::{live_start, watch};
use aiop::target::watch::{WatchEvent, WatchStep};

const SESSION: TargetSessionId = TargetSessionId(0x0123_abcd_4567_4890_8abc_def0_1234_5678);
const SESSION_TEXT: &str = "0123abcd-4567-4890-8abc-def012345678";
const TURN: TargetTurnId = TargetTurnId(0x1111_1111_1111_4111_8111_1111_1111_1111);
const TURN_TEXT: &str = "11111111-1111-4111-8111-111111111111";

fn command(intent: TargetIntent) -> TargetCommand {
    TargetCommand {
        operation_id: TargetOperationId(1),
        working_directory: "/workspace".to_owned(),
        executable: "target".to_owned(),
        expected_model: "opus".to_owned(),
        intent,
        session_id: SESSION,
        prompt: "prompt".to_owned(),
    }
}

fn turn(position: u64) -> TargetLiveTurn {
    TargetLiveTurn {
        turn_id: TargetTurnId(u128::from(position)),
        position,
        prompt: format!("prompt {position}"),
    }
}

#[test]
fn a_review_has_one_exact_command_line() {
    let profile = [
        "--print",
        "--verbose",
        "--output-format",
        "stream-json",
        "--model",
        "opus",
        "--effort",
        "max",
        "--permission-mode",
        "dontAsk",
        "--restricted",
        "--safe-mode",
        "--tools",
        "Read,Glob,Grep",
        "--allowedTools",
        "Read,Glob,Grep",
    ];
    let mut expected: Vec<&str> = profile.to_vec();
    expected.extend(["--session-id", SESSION_TEXT]);
    assert_eq!(build(&command(TargetIntent::New)), expected);
    let resumed = TargetIntent::ResumeExact { session_id: TargetSessionId(0) };
    let mut expected: Vec<&str> = profile.to_vec();
    expected.extend(["--resume", "00000000-0000-0000-0000-000000000000"]);
    assert_eq!(build(&command(resumed)), expected);
}

#[test]
fn a_conversation_has_one_exact_command_line() {
    let start = TargetLiveStart {
        operation_id: TargetOperationId(1),
        working_directory: "/workspace".to_owned(),
        executable: "target".to_owned(),
        expected_model: "opus".to_owned(),
        intent: TargetIntent::New,
        session_id: SESSION,
        first_turn: turn(1),
    };
    let line = build_live(&start);
    assert_eq!(
        line[..8],
        [
            "--print",
            "--input-format",
            "stream-json",
            "--output-format",
            "stream-json",
            "--include-partial-messages",
            "--replay-user-messages",
            "--verbose",
        ]
    );
    assert_eq!(line[line.len() - 2..], ["--session-id", SESSION_TEXT]);
    assert_eq!(line.len(), 22);
}

#[test]
fn output_is_taken_in_whole_lines() {
    let mut output = OutputBuffer::new();
    output.receive_stdout(b"first\nsec");
    assert_eq!(output.take_stdout_lines(), Ok(vec!["first".to_owned()]));
    assert_eq!(output.take_stdout_lines(), Ok(Vec::new()));
    output.receive_stdout("ond \u{1f600}\n".as_bytes());
    assert_eq!(output.take_stdout_lines(), Ok(vec!["second \u{1f600}".to_owned()]));
    output.receive_stdout(&[0xff, b'\n']);
    let message = output.take_stdout_lines().expect_err("the line is not text");
    assert!(message.starts_with(&format!("{PROVIDER} stdout was not UTF-8 stream JSON: ")));
    assert!(message.contains("invalid utf-8 sequence"));
}

#[test]
fn complaints_are_read_whatever_they_hold() {
    let mut output = OutputBuffer::new();
    output.receive_stderr(b"bad ");
    output.receive_stderr(&[0xff]);
    assert_eq!(output.stderr(), "bad \u{fffd}");
    assert_eq!(with_stderr("why".to_owned(), ""), "why");
    assert_eq!(with_stderr("why".to_owned(), "details"), "why: details");
}

#[test]
fn lines_end_with_a_line_feed() {
    assert_eq!(split_lines("a\nb\n"), vec!["a", "b"]);
    assert_eq!(split_lines("a\r\n\nb"), vec!["a", "", "b"]);
    assert!(split_lines("").is_empty());
}

fn init(session: &str, model: &str) -> String {
    format!(
        "{{\"type\":\"system\",\"subtype\":\"init\",\"session_id\":\"{session}\",\
         \"model\":\"{model}\",\"claude_code_version\":\"fixture-1\"}}"
    )
}

fn result(session: &str, rest: &str) -> String {
    format!("{{\"type\":\"result\",\"session_id\":\"{session}\"{rest}}}")
}

fn ambiguous(message: &str) -> Result<(), InterpretationError> {
    Err(InterpretationError::Ambiguous(message.to_owned()))
}

#[test]
fn a_review_is_the_evidence_that_the_stream_holds() {
    let command = command(TargetIntent::New);
    let mut evidence = Evidence::new();
    assert_eq!(evidence.observe(&init(SESSION_TEXT, "opus"), &command).outcome, Ok(()));
    assert_eq!(evidence.observe("{\"type\":\"telemetry\"}", &command).outcome, Ok(()));
    let told = result(SESSION_TEXT, ",\"is_error\":false,\"result\":\"review\"");
    assert_eq!(evidence.observe(&told, &command).outcome, Ok(()));
    let success = evidence.success(&command).expect("the evidence is complete");
    assert_eq!(success.result, "review");
    assert_eq!(success.observed_session_id, SESSION);
    assert_eq!(success.observed_model, "opus");
    assert_eq!(success.observed_version, Some("fixture-1".to_owned()));
}

#[test]
fn a_stream_that_contradicts_the_launch_is_ambiguous() {
    let command = command(TargetIntent::New);
    for (line, message) in [
        (
            init("00000000-0000-4000-8000-000000000000", "opus"),
            format!(
                "{PROVIDER} init session mismatch: intended {SESSION_TEXT}; observed \
                 00000000-0000-4000-8000-000000000000"
            ),
        ),
        (
            init(SESSION_TEXT, "other-model"),
            format!("{PROVIDER} init model mismatch: intended opus; observed other-model"),
        ),
        (
            result("00000000-0000-4000-8000-000000000000", ",\"is_error\":false"),
            format!("{PROVIDER} result session did not match the intended session"),
        ),
        (result(SESSION_TEXT, ""), format!("{PROVIDER} result omitted is_error")),
        (
            result(SESSION_TEXT, ",\"is_error\":false"),
            format!("{PROVIDER} result omitted review text"),
        ),
    ] {
        assert_eq!(Evidence::new().observe(&line, &command).outcome, ambiguous(&message));
    }
    let told = Evidence::new().observe("{invalid json}", &command);
    assert_eq!(
        told.outcome,
        ambiguous(&format!(
            "{PROVIDER} emitted invalid stream JSON: key must be a string at line 1 column 2"
        ))
    );
}

#[test]
fn a_failed_result_tells_what_the_provider_said() {
    let command = command(TargetIntent::New);
    for (rest, message) in [
        (",\"is_error\":true,\"result\":\"rejected\"", "rejected".to_owned()),
        (",\"is_error\":true", format!("{PROVIDER} terminal failure omitted result text")),
        (
            ",\"is_error\":true,\"result\":\"\"",
            format!("{PROVIDER} terminal failure result was empty"),
        ),
    ] {
        assert_eq!(
            Evidence::new().observe(&result(SESSION_TEXT, rest), &command).outcome,
            Err(InterpretationError::ProviderFailure(message))
        );
    }
}

#[test]
fn evidence_that_is_missing_is_named() {
    let command = command(TargetIntent::New);
    assert_eq!(
        Evidence::new().success(&command),
        Err(InterpretationError::Ambiguous(
            format!("direct {PROVIDER} child exited without a result event")
        ))
    );
    let mut evidence = Evidence::new();
    let told = result(SESSION_TEXT, ",\"is_error\":false,\"result\":\"review\"");
    assert_eq!(evidence.observe(&told, &command).outcome, Ok(()));
    match evidence.success(&command) {
        Err(InterpretationError::Ambiguous(message)) => {
            let missing = format!("{PROVIDER} init session evidence is missing: intended ");
            assert!(message.starts_with(&missing));
        }
        other => panic!("no session was told: {other:?}"),
    }
}

#[test]
fn diagnostics_are_read_from_the_stream() {
    let command = command(TargetIntent::New);
    let diagnostic = |line: &str| Evidence::new().observe(line, &command).diagnostic;
    assert_eq!(
        diagnostic(
            "{\"type\":\"system\",\"subtype\":\"api_retry\",\"attempt\":1,\"max_retries\":2,\
             \"retry_delay_ms\":5}"
        ),
        Some(TargetDiagnostic::ProviderRetrying {
            attempt: 1,
            max_retries: 2,
            retry_delay_ms: 5,
        })
    );
    assert_eq!(
        diagnostic(
            "{\"type\":\"system\",\"subtype\":\"api_retry\",\"attempt\":3,\"max_retries\":2,\
             \"retry_delay_ms\":5}"
        ),
        Some(TargetDiagnostic::DiagnosticUnclassified)
    );
    assert_eq!(
        diagnostic(
            "{\"type\":\"assistant\",\"is_api_error_message\":true,\
             \"error\":\"authentication_failed\"}"
        ),
        Some(TargetDiagnostic::AuthenticationFailed)
    );
    assert_eq!(
        diagnostic("{\"type\":\"assistant\",\"is_api_error_message\":true,\"error\":\"other\"}"),
        Some(TargetDiagnostic::DiagnosticUnclassified)
    );
    assert_eq!(diagnostic("{\"type\":\"assistant\"}"), None);
}

#[test]
fn a_review_runs_only_after_its_permission() {
    assert_eq!(begin(true), ReviewStep::ReportCancelled);
    assert_eq!(
        execute(ReviewStep::ReportCancelled, ReviewEvent::Reported { received: true }),
        ReviewStep::Done(TargetOutcome::CancelledBeforeLaunch(
            format!("cancellation was observed before direct {PROVIDER} launch")
        ))
    );
    let mut step = begin(false);
    for event in [
        ReviewEvent::Spawned(Ok(())),
        ReviewEvent::Captured { stdin: true, stdout: true, stderr: true },
        ReviewEvent::Registered { refusal: None },
        ReviewEvent::Reported { received: true },
    ] {
        step = execute(step, event);
    }
    assert_eq!(step, ReviewStep::AwaitPermission);
    let permitted = execute(ReviewStep::AwaitPermission, ReviewEvent::Permission(Ok(())));
    assert_eq!(permitted, ReviewStep::Observe);
    let withheld =
        execute(ReviewStep::AwaitPermission, ReviewEvent::Permission(Err("why".to_owned())));
    assert!(matches!(withheld, ReviewStep::Terminate { .. }));
    let lost = execute(ReviewStep::AwaitPermission, ReviewEvent::PermissionLost);
    assert_eq!(
        lost,
        ReviewStep::Terminate {
            reason: "Control did not grant durable Running acknowledgement".to_owned(),
        }
    );
    assert_eq!(
        execute(ReviewStep::Spawn, ReviewEvent::PermissionLost),
        ReviewStep::Spawn
    );
}

#[test]
fn a_launch_failure_is_reported_once() {
    let failed = execute(ReviewStep::Spawn, ReviewEvent::Spawned(Err("no file".to_owned())));
    let error = match &failed {
        ReviewStep::ReportSpawnFailed { error } => error.clone(),
        other => panic!("the failure is reported: {other:?}"),
    };
    assert_eq!(
        execute(failed, ReviewEvent::Reported { received: true }),
        ReviewStep::Done(TargetOutcome::SpawnFailed(error))
    );
    let uncaptured = execute(
        ReviewStep::Capture,
        ReviewEvent::Captured { stdin: true, stdout: false, stderr: true },
    );
    assert_eq!(
        uncaptured,
        ReviewStep::Done(TargetOutcome::Indeterminate(
            "direct child stdout was not captured".to_owned()
        ))
    );
}

fn concluded(
    failures: ReviewFailures,
    cancelled: bool,
    exit_success: bool,
    prompt: PromptInput,
    stderr: &str,
) -> TargetOutcome {
    let command = command(TargetIntent::New);
    conclude(failures, cancelled, exit_success, prompt, Evidence::new(), &command, stderr)
}

#[test]
fn a_prompt_that_decides_nothing_is_ignored() {
    assert!(prompt_decides(&ReviewFailures::new(), false, true));
    assert!(!prompt_decides(&ReviewFailures::new(), true, true));
    assert!(!prompt_decides(&ReviewFailures::new(), false, false));
    let failed = || {
        let mut failures = ReviewFailures::new();
        failures.failed("lost".to_owned());
        failures
    };
    assert!(!prompt_decides(&failed(), false, true));
    assert_eq!(
        concluded(failed(), false, true, PromptInput::Panicked, ""),
        concluded(failed(), false, true, PromptInput::Written, "")
    );
    assert_eq!(
        concluded(ReviewFailures::new(), false, true, PromptInput::Panicked, ""),
        TargetOutcome::Indeterminate("prompt writer panicked".to_owned())
    );
}

#[test]
fn the_outcome_of_a_review_is_the_first_cause() {
    assert_eq!(
        concluded(ReviewFailures::new(), true, false, PromptInput::Panicked, "noise"),
        TargetOutcome::Cancelled(format!("direct {PROVIDER} child termination was observed"))
    );
    assert_eq!(
        concluded(
            ReviewFailures::new(),
            false,
            false,
            PromptInput::Failed("broken pipe".to_owned()),
            "noise",
        ),
        TargetOutcome::Failed(format!("direct {PROVIDER} child exited unsuccessfully: noise"))
    );
    let mut failures = ReviewFailures::new();
    failures.last_interpretation_failed(InterpretationError::ProviderFailure(
        "rejected".to_owned(),
    ));
    assert_eq!(
        concluded(failures, false, true, PromptInput::Written, "noise"),
        TargetOutcome::Failed("rejected: noise".to_owned())
    );
    let mut failures = ReviewFailures::new();
    failures.failed("lost".to_owned());
    assert_eq!(
        concluded(failures, false, true, PromptInput::Written, ""),
        TargetOutcome::Indeterminate("lost".to_owned())
    );
    assert_eq!(
        concluded(ReviewFailures::new(), false, true, PromptInput::Written, ""),
        TargetOutcome::Indeterminate(
            format!("direct {PROVIDER} child exited without a result event")
        )
    );
    assert_eq!(
        output_unavailable("no pipe".to_owned(), &Err("no child".to_owned())),
        TargetOutcome::Indeterminate(
            "no pipe; direct child could not be terminated: no child".to_owned()
        )
    );
}

#[test]
fn a_watched_review_ends_after_its_last_output() {
    let mut failures = ReviewFailures::new();
    let mut step = WatchStep::Poll;
    for event in [
        WatchEvent::Polled(Ok(())),
        WatchEvent::Interpreted(Ok(())),
        WatchEvent::Status(Ok(None)),
        WatchEvent::Cancelled { requested: false },
    ] {
        step = watch::observe(step, event, &mut failures);
    }
    assert_eq!(step, WatchStep::Poll);
    for event in [
        WatchEvent::Polled(Ok(())),
        WatchEvent::Interpreted(Ok(())),
        WatchEvent::Status(Ok(Some(true))),
    ] {
        step = watch::observe(step, event, &mut failures);
    }
    assert_eq!(step, WatchStep::Drain { success: true });
    step = watch::observe(step, WatchEvent::Drained(Ok(())), &mut failures);
    assert_eq!(step, WatchStep::InterpretLast { success: true });
    step = watch::observe(step, WatchEvent::Interpreted(Ok(())), &mut failures);
    assert_eq!(step, WatchStep::Conclude { success: true });
    assert_eq!(failures.terminal_error, None);
    assert_eq!(failures.provider_failure, None);
}

#[test]
fn a_watched_review_keeps_its_failures() {
    let mut failures = ReviewFailures::new();
    let failure = InterpretationError::Ambiguous("contradiction".to_owned());
    let step =
        watch::observe(WatchStep::Interpret, WatchEvent::Interpreted(Err(failure)), &mut failures);
    let step = watch::observe(step, WatchEvent::Terminated(Ok(())), &mut failures);
    assert_eq!(step, WatchStep::CheckStatus);
    assert_eq!(failures.terminal_error, Some("contradiction".to_owned()));
    let step = watch::observe(
        WatchStep::CheckCancel,
        WatchEvent::Cancelled { requested: true },
        &mut failures,
    );
    assert_eq!(step, WatchStep::TerminateCancelled);
}

#[test]
fn an_unregistered_child_is_told_with_its_proof() {
    let root = "registry poisoned";
    let failed = || Err("failed".to_owned());
    assert_eq!(
        stop_unregistered(root, &Ok(()), &Ok(())),
        ChildRegistrationError {
            message: root.to_owned(),
            exit_evidence: ChildExitEvidence::Proven,
        }
    );
    assert_eq!(
        stop_unregistered(root, &failed(), &Ok(())).exit_evidence,
        ChildExitEvidence::Proven
    );
    let unproven = stop_unregistered(root, &Ok(()), &failed());
    assert_eq!(
        unproven,
        ChildRegistrationError {
            message: "registry poisoned; unregistered direct child exit could not be observed: \
                      failed"
                .to_owned(),
            exit_evidence: ChildExitEvidence::Unproven,
        }
    );
}

#[test]
fn a_conversation_starts_with_its_first_turn() {
    assert_eq!(
        live_start::begin(2),
        LiveStartStep::Refused(TargetLiveStartError::NoWriter(
            "first live turn must have durable position 1".to_owned()
        ))
    );
    assert_eq!(live_start::begin(1), LiveStartStep::Spawn);
    let step = advance(LiveStartStep::Spawn, LiveStartEvent::Spawned(Err("no file".to_owned())));
    assert_eq!(
        step,
        LiveStartStep::Refused(TargetLiveStartError::NoWriter("no file".to_owned()))
    );
    let step = advance(
        LiveStartStep::RegisterRuntime,
        LiveStartEvent::RuntimeRegistered(Err("taken".to_owned())),
    );
    assert_eq!(
        step,
        LiveStartStep::StopChild { root: "taken".to_owned(), tail: StopTail::Nothing }
    );
    let step = advance(
        step,
        LiveStartEvent::ChildStopped { termination: Ok(()), wait: Ok(()), removal: Ok(()) },
    );
    assert_eq!(
        step,
        LiveStartStep::Refused(TargetLiveStartError::CleanupProvenExited("taken".to_owned()))
    );
    let error = TargetLiveStartError::CleanupUnproven("lost".to_owned());
    assert_eq!(error.message(), "lost");
}

#[test]
fn turns_are_taken_once_and_in_the_durable_bound() {
    let mut admission = LiveAdmission::new(turn(1));
    assert_eq!(admission.admit_turn(turn(1)), Ok(false));
    assert_eq!(admission.admit_turn(turn(2)), Ok(true));
    let mut changed = turn(2);
    changed.prompt = "changed".to_owned();
    assert_eq!(
        admission.admit_turn(changed),
        Err("live turn UUID was reused with different content".to_owned())
    );
    let mut taken = turn(2);
    taken.turn_id = TURN;
    assert_eq!(
        admission.admit_turn(taken),
        Err("live turn position is already owned by TargetTurnId(\
             00000000-0000-0000-0000-000000000002)"
            .to_owned())
    );
    assert_eq!(
        admission.close(0),
        Err("graceful close position must start at one".to_owned())
    );
    assert_eq!(admission.close(2), Ok(true));
    assert_eq!(admission.close(2), Ok(false));
    assert!(admission.is_graceful());
    assert_eq!(
        admission.close(3),
        Err("graceful close contradicted its durable admitted position".to_owned())
    );
    assert_eq!(
        admission.admit_turn(turn(3)),
        Err("live conversation no longer admits turns beyond graceful close".to_owned())
    );
    assert!(admission.cancel());
    assert!(!admission.cancel());
    assert!(admission.is_cancelled());
    assert_eq!(
        admission.admit_turn(turn(4)),
        Err("live conversation was cancelled before turn delivery".to_owned())
    );
}

#[test]
fn a_turn_that_was_not_delivered_breaks_the_input() {
    let mut admission = LiveAdmission::new(turn(1));
    assert_eq!(admission.delivered(true), Ok(()));
    assert_eq!(
        admission.delivered(false),
        Err("live input writer stopped after accepting a turn".to_owned())
    );
    assert_eq!(
        admission.admit_turn(turn(2)),
        Err("live input delivery is indeterminate".to_owned())
    );
    assert_eq!(admission.close(1), Err("live input delivery is indeterminate".to_owned()));
    assert_eq!(close_delivered(true), Ok(()));
    assert_eq!(
        close_delivered(false),
        Err("live input writer stopped before graceful close".to_owned())
    );
}

#[test]
fn turns_are_written_in_their_durable_order() {
    let mut queue = InputQueue::new(turn(1));
    assert_eq!(queue.step(), InputStep::Write(turn(1)));
    assert_eq!(queue.written(), Ok(()));
    assert_eq!(queue.receive(WriterCommand::Turn(turn(3))), Ok(true));
    assert_eq!(queue.step(), InputStep::Await);
    assert_eq!(queue.receive(WriterCommand::Close { through_position: 3 }), Ok(true));
    assert_eq!(queue.step(), InputStep::Await);
    assert_eq!(queue.receive(WriterCommand::Turn(turn(2))), Ok(true));
    assert_eq!(
        queue.receive(WriterCommand::Turn(turn(2))),
        Err("live input received two turns at one durable position".to_owned())
    );
    for position in [2, 3] {
        assert_eq!(queue.step(), InputStep::Write(turn(position)));
        assert_eq!(queue.written(), Ok(()));
    }
    assert_eq!(queue.step(), InputStep::Closed);
    assert_eq!(queue.receive(WriterCommand::Cancel), Ok(false));
}

#[test]
fn input_is_written_with_permission_only() {
    assert_eq!(running_permission(Some(Ok(()))), Ok(()));
    assert_eq!(running_permission(Some(Err("why".to_owned()))), Err("why".to_owned()));
    assert_eq!(
        running_permission(None),
        Err("Control did not grant durable Running permission to the live child".to_owned())
    );
}

#[test]
fn a_turn_is_one_frame_of_structured_input() {
    let turn = TargetLiveTurn { turn_id: TURN, position: 1, prompt: "say \"hi\"\n".to_owned() };
    assert_eq!(
        encode(&turn),
        format!(
            "{{\"message\":{{\"content\":[{{\"text\":\"say \\\"hi\\\"\\n\",\"type\":\"text\"}}],\
             \"role\":\"user\"}},\"type\":\"user\",\"uuid\":\"{TURN_TEXT}\"}}"
        )
    );
}

fn event(rest: &str) -> String {
    format!("{{\"session_id\":\"{SESSION_TEXT}\",{rest}}}")
}

fn lifecycle(state: &str) -> String {
    event(&format!(
        "\"type\":\"command_lifecycle\",\"command_uuid\":\"{TURN_TEXT}\",\"state\":\"{state}\""
    ))
}

fn registered() -> Codec {
    let mut codec = Codec::new();
    codec
        .register_turn(TargetLiveTurn {
            turn_id: TURN,
            position: 1,
            prompt: "hello".to_owned(),
        })
        .expect("the turn is new");
    codec
}

#[test]
fn a_turn_is_read_from_queue_to_result() {
    let mut codec = registered();
    assert!(!codec.all_completed());
    let replay = event(&format!(
        "\"type\":\"user\",\"isReplay\":true,\"uuid\":\"{TURN_TEXT}\",\"message\":{{\
         \"role\":\"user\",\"content\":[{{\"type\":\"text\",\"text\":\"hello\"}}]}}"
    ));
    let delta = event(
        "\"type\":\"stream_event\",\"event\":{\"type\":\"content_block_delta\",\
         \"delta\":{\"type\":\"text_delta\",\"text\":\"part\"}}",
    );
    let told = event("\"type\":\"result\",\"is_error\":false,\"result\":\"whole\"");
    for (line, expected) in [
        (lifecycle("queued"), vec![TargetLiveObservation::TurnQueued { turn_id: TURN }]),
        (lifecycle("started"), vec![TargetLiveObservation::TurnStarted { turn_id: TURN }]),
        (
            init(SESSION_TEXT, "opus"),
            vec![TargetLiveObservation::Initialized {
                session_id: SESSION,
                model: "opus".to_owned(),
                version: Some("fixture-1".to_owned()),
            }],
        ),
        (replay, vec![TargetLiveObservation::TurnAcknowledged { turn_id: TURN }]),
        (
            delta,
            vec![TargetLiveObservation::AssistantTextDelta {
                turn_id: TURN,
                text: "part".to_owned(),
            }],
        ),
        (told, vec![]),
        (
            lifecycle("completed"),
            vec![TargetLiveObservation::TurnCompleted {
                turn_id: TURN,
                result: "whole".to_owned(),
            }],
        ),
    ] {
        assert_eq!(codec.observe(&line, "opus", SESSION), Ok(expected), "{line}");
    }
    assert!(codec.all_completed());
}

fn refused(codec: &mut Codec, line: &str) -> String {
    match codec.observe(line, "opus", SESSION) {
        Err(CodecError::Indeterminate(message)) => message,
        other => panic!("the line contradicts the conversation: {other:?}"),
    }
}

#[test]
fn a_turn_out_of_order_is_indeterminate() {
    assert_eq!(
        refused(&mut registered(), &lifecycle("unknown")),
        format!("{PROVIDER} lifecycle state is unsupported: unknown")
    );
    assert!(refused(&mut registered(), &lifecycle("started"))
        .starts_with(&format!("{PROVIDER} lifecycle started contradicted turn TargetTurnId(")));
    assert_eq!(
        refused(&mut Codec::new(), &lifecycle("queued")),
        format!("{PROVIDER} event referenced an unknown live turn UUID")
    );
    let mut codec = registered();
    let twice = TargetLiveTurn { turn_id: TURN, position: 2, prompt: "again".to_owned() };
    assert_eq!(
        codec.register_turn(twice),
        Err(CodecError::Indeterminate(
            "provider input reported a duplicate turn UUID".to_owned()
        ))
    );
    assert!(refused(&mut registered(), "{invalid json}")
        .starts_with(&format!("{PROVIDER} emitted invalid structured JSON: ")));
}

#[test]
fn a_failed_turn_keeps_its_identity() {
    let mut codec = registered();
    for line in [lifecycle("queued"), lifecycle("started"), init(SESSION_TEXT, "opus")] {
        codec.observe(&line, "opus", SESSION).expect("the turn starts");
    }
    let failed = event("\"type\":\"result\",\"is_error\":true,\"result\":\"rejected\"");
    assert_eq!(
        codec.observe(&failed, "opus", SESSION),
        Err(CodecError::Failed { turn_id: TURN, message: "rejected".to_owned() })
    );
}

#[test]
fn a_conversation_ends_as_it_was_seen_to_end() {
    let running = observe(ObserverStep::CheckChild, ObserverEvent::Running, false, false, false);
    assert_eq!(running, ObserverStep::Consume);
    let cleaned = |step: ObserverStep, result: Result<(), String>, evidence: ChildExitEvidence| {
        observe(step, ObserverEvent::CleanedUp { result, evidence }, false, true, true)
    };
    let drained = observe(
        ObserverStep::Drain,
        ObserverEvent::Drained { success: true },
        false,
        true,
        true,
    );
    assert_eq!(
        drained,
        ObserverStep::CleanUp {
            mode: CleanupMode::ObservedExit,
            terminal: TargetLiveObservation::Exited,
        }
    );
    assert_eq!(
        cleaned(drained, Ok(()), ChildExitEvidence::Proven),
        ObserverStep::Publish(TargetLiveObservation::Exited)
    );
    let unexpected = observe(
        ObserverStep::Drain,
        ObserverEvent::Drained { success: true },
        false,
        false,
        true,
    );
    assert_eq!(
        unexpected,
        ObserverStep::CleanUp {
            mode: CleanupMode::ObservedExit,
            terminal: TargetLiveObservation::Indeterminate(
                "direct live child exited before a graceful completed conversation".to_owned()
            ),
        }
    );
    assert!(matches!(
        cleaned(unexpected, Err("lost".to_owned()), ChildExitEvidence::Unproven),
        ObserverStep::Publish(TargetLiveObservation::UnclassifiedWriter(_))
    ));
    let failed = observe(
        ObserverStep::Consume,
        ObserverEvent::Consumed {
            refusal: Some(CodecError::Failed { turn_id: TURN, message: "why".to_owned() }),
        },
        false,
        false,
        false,
    );
    assert!(matches!(
        failed,
        ObserverStep::PublishFailedTurn { turn_id: TURN, mode: CleanupMode::Terminate, .. }
    ));
}

#[test]
fn cleanup_tells_every_failure_and_whether_the_exit_is_proven() {
    let (result, evidence) =
        cleanup(CleanupMode::Terminate, Ok(()), Ok(()), false, Ok(()), Ok(()));
    assert_eq!(result, Ok(()));
    assert_eq!(evidence, ChildExitEvidence::Proven);
    let (result, evidence) = cleanup(
        CleanupMode::Terminate,
        Err("no signal".to_owned()),
        Err("no wait".to_owned()),
        true,
        Ok(()),
        Ok(()),
    );
    let message = result.expect_err("the cleanup failed");
    assert!(message.contains("no signal"));
    assert!(message.contains("no wait"));
    assert_eq!(evidence, ChildExitEvidence::Unproven);
}

#[test]
fn an_operation_owns_one_child_and_one_runtime() {
    assert_eq!(runtime_registered(true), Ok(()));
    assert_eq!(
        runtime_registered(false),
        Err("operation already owns a live runtime".to_owned())
    );
    assert_eq!(runtime_found(Some(7)), Ok(7));
    assert_eq!(runtime_found::<u8>(None), Err("live runtime is not active".to_owned()));
    assert_eq!(runtime_removed(true), Ok(()));
    assert_eq!(
        runtime_removed(false),
        Err("live runtime disappeared before completion".to_owned())
    );
    assert_eq!(child_found(Some(7)), Ok(7));
    assert_eq!(child_found::<u8>(None), Err("direct child is not active".to_owned()));
    assert_eq!(child_removed(true), Ok(()));
    assert_eq!(
        child_removed(false),
        Err("direct child disappeared before execution completed".to_owned())
    );
}
