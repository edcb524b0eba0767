//! What one review does, said of the events that the provider writes and of the outcome that is told.

use vstd::prelude::*;

use crate::contract::target::{
    TargetCommandView, TargetDiagnostic, TargetOutcomeView, TargetSessionId, TargetSuccessView,
    PROVIDER,
};
use crate::identifier::uuid_parsed;
use crate::json::{json_parsed, JsonView};
use crate::target::execution::{
    review_advanced, review_begun, review_concluded, PromptInputView, ReviewEventView,
    ReviewFailuresView, ReviewStepView,
};
use crate::target::stream::{
    diagnostic_told, evidence_after, proven, stream_event, EvidenceView, InterpretationErrorView,
};
use crate::target::watch::{
    lines_interpreted, output_interpreted, watch_moved, WatchEventView, WatchStepView,
};

verus! {

/// Whether a member of an event is a text.
pub open spec fn says(event: JsonView, name: Seq<char>, text: Seq<char>) -> bool {
    event.member(name) == Some(JsonView::Text(text))
}

/// Whether an event names a session by a text that is read as its identity.
pub open spec fn names_session(event: JsonView, session: TargetSessionId) -> bool {
    exists|text: Seq<char>| #[trigger]
        says(event, "session_id"@, text) && uuid_parsed(text) == Ok::<u128, Seq<char>>(session.0)
}

/// A review that nothing disturbed, whose child exited successfully after it took the whole prompt,
/// and whose provider named the intended session and the expected model and gave a result, succeeds
/// with exactly that result, whatever the child wrote to its standard error.
pub proof fn undisturbed_review_succeeds(
    failures: ReviewFailuresView,
    evidence: EvidenceView,
    command: TargetCommandView,
    stderr: Seq<char>,
    result: Seq<char>,
)
    requires
        failures.provider_failure is None,
        failures.terminal_error is None,
        evidence.init_session == Some(command.session_id),
        evidence.init_model == Some(command.expected_model),
        evidence.result == Some(result),
    ensures
        review_concluded(
            failures,
            false,
            true,
            PromptInputView::Written,
            evidence,
            command,
            stderr,
        ) == TargetOutcomeView::Success(
            TargetSuccessView {
                result,
                observed_session_id: command.session_id,
                observed_model: command.expected_model,
                observed_version: evidence.version,
            },
        ),
{
}

/// What the child wrote to its standard error is told with a failure and decides nothing: the kind of
/// the outcome is the same whatever it is, a success and a cancellation do not even tell it, and a
/// failure tells it behind its own message, separated by a colon, where there is any.
pub proof fn standard_error_decides_nothing(
    failures: ReviewFailuresView,
    cancelled: bool,
    exit_success: bool,
    prompt: PromptInputView,
    evidence: EvidenceView,
    command: TargetCommandView,
    stderr: Seq<char>,
)
    requires
        stderr.len() > 0,
    ensures
        ({
            let quiet = review_concluded(
                failures,
                cancelled,
                exit_success,
                prompt,
                evidence,
                command,
                Seq::empty(),
            );
            let told = review_concluded(
                failures,
                cancelled,
                exit_success,
                prompt,
                evidence,
                command,
                stderr,
            );
            match quiet {
                TargetOutcomeView::Success(_) => told == quiet,
                TargetOutcomeView::Cancelled(_) => told == quiet,
                TargetOutcomeView::Failed(message) => told == TargetOutcomeView::Failed(
                    message + ": "@ + stderr,
                ),
                TargetOutcomeView::Indeterminate(message) => told
                    == TargetOutcomeView::Indeterminate(message + ": "@ + stderr),
                _ => false,
            }
        }),
{
}

/// What explains the end of a review, in its order: a cancellation, a failure that the provider told,
/// an observation that was disturbed, an unsuccessful exit, a prompt that was not written, a missing
/// result, and at last an identity that was not proven.
pub proof fn end_is_explained_by_its_first_cause(
    failures: ReviewFailuresView,
    exit_success: bool,
    prompt: PromptInputView,
    evidence: EvidenceView,
    command: TargetCommandView,
)
    ensures
        ({
            let told = |cancelled: bool|
                review_concluded(
                    failures,
                    cancelled,
                    exit_success,
                    prompt,
                    evidence,
                    command,
                    Seq::empty(),
                );
            &&& told(true) == TargetOutcomeView::Cancelled(
                "direct "@ + PROVIDER@ + " child termination was observed"@,
            )
            &&& failures.provider_failure matches Some(message) ==> told(false)
                == TargetOutcomeView::Failed(message)
            &&& failures.provider_failure is None ==> {
                &&& failures.terminal_error matches Some(message) ==> told(false)
                    == TargetOutcomeView::Indeterminate(message)
                &&& failures.terminal_error is None ==> {
                    &&& !exit_success ==> told(false) == TargetOutcomeView::Failed(
                        "direct "@ + PROVIDER@ + " child exited unsuccessfully"@,
                    )
                    &&& exit_success ==> {
                        &&& prompt matches PromptInputView::Failed(message) ==> told(false)
                            == TargetOutcomeView::Indeterminate(message)
                        &&& prompt is Panicked ==> told(false) == TargetOutcomeView::Indeterminate(
                            "prompt writer panicked"@,
                        )
                        &&& prompt is Written && evidence.result is None ==> told(false)
                            == TargetOutcomeView::Indeterminate(
                            "direct "@ + PROVIDER@ + " child exited without a result event"@,
                        )
                        &&& prompt is Written && evidence.result is Some && (evidence.init_session
                            != Some(command.session_id) || evidence.init_model != Some(
                            command.expected_model,
                        )) ==> told(false) is Indeterminate
                    }
                }
            }
        }),
{
}

/// The initialization of the intended session with the expected model is taken as evidence of both,
/// with the version that it tells, and keeps a result that is known.
pub proof fn matching_initialization_is_evidence(
    evidence: EvidenceView,
    line: Seq<char>,
    event: JsonView,
    command: TargetCommandView,
)
    requires
        json_parsed(line) == Ok::<_, Seq<char>>(event),
        says(event, "type"@, "system"@),
        says(event, "subtype"@, "init"@),
        names_session(event, command.session_id),
        says(event, "model"@, command.expected_model),
    ensures
        ({
            let (after, outcome, diagnostics) = lines_interpreted(evidence, seq![line], command);
            &&& outcome is Ok
            &&& diagnostics.len() == 0
            &&& after.init_session == Some(command.session_id)
            &&& after.init_model == Some(command.expected_model)
            &&& after.result == evidence.result
            &&& match event.member("claude_code_version"@) {
                Some(JsonView::Text(version)) => after.version == Some(version),
                _ => after.version is None,
            }
        }),
{
    lemma_one_line(evidence, line, event, command);
    reveal_strlit("system");
    reveal_strlit("assistant");
    reveal_strlit("init");
    reveal_strlit("api_retry");
    assert("init"@.len() != "api_retry"@.len());
    assert("system"@.len() != "assistant"@.len());
}

/// An initialization that names another session or another model, or none, ends the review as
/// ambiguous and is no evidence.
pub proof fn other_initialization_is_ambiguous(
    evidence: EvidenceView,
    line: Seq<char>,
    event: JsonView,
    command: TargetCommandView,
)
    requires
        json_parsed(line) == Ok::<_, Seq<char>>(event),
        says(event, "type"@, "system"@),
        says(event, "subtype"@, "init"@),
        !names_session(event, command.session_id) || !says(
            event,
            "model"@,
            command.expected_model,
        ),
    ensures
        lines_interpreted(evidence, seq![line], command).0 == evidence,
        lines_interpreted(evidence, seq![line], command).1 matches Err(
            InterpretationErrorView::Ambiguous(_),
        ),
{
    lemma_one_line(evidence, line, event, command);
    if let Some(JsonView::Text(text)) = event.member("session_id"@) {
        assert(says(event, "session_id"@, text));
    }
}

/// A result of the intended session is decided by its flag alone: a success gives the review text and
/// keeps what is known of the identity, a failure is the provider's own, in its own words where it has
/// any; and a flag or a review text that is missing is ambiguous.
pub proof fn result_is_taken_by_its_flag(
    evidence: EvidenceView,
    line: Seq<char>,
    event: JsonView,
    command: TargetCommandView,
)
    requires
        json_parsed(line) == Ok::<_, Seq<char>>(event),
        says(event, "type"@, "result"@),
        names_session(event, command.session_id),
    ensures
        ({
            let (after, outcome, diagnostics) = lines_interpreted(evidence, seq![line], command);
            &&& diagnostics.len() == 0
            &&& after.init_session == evidence.init_session
            &&& after.init_model == evidence.init_model
            &&& after.version == evidence.version
            &&& match (event.member("is_error"@), event.member("result"@)) {
                (Some(JsonView::Bool(false)), Some(JsonView::Text(text))) => outcome is Ok
                    && after.result == Some(text),
                (Some(JsonView::Bool(true)), Some(JsonView::Text(text))) => after.result
                    == evidence.result && (outcome matches Err(
                    InterpretationErrorView::ProviderFailure(message),
                ) && (text.len() > 0 ==> message == text) && message.len() > 0),
                (Some(JsonView::Bool(true)), _) => after.result == evidence.result && (
                outcome matches Err(InterpretationErrorView::ProviderFailure(message))),
                _ => after.result == evidence.result && (outcome matches Err(
                    InterpretationErrorView::Ambiguous(_),
                )),
            }
        }),
{
    lemma_one_line(evidence, line, event, command);
    reveal_strlit("system");
    reveal_strlit("result");
    reveal_strlit("assistant");
    reveal_strlit(" terminal failure result was empty");
    assert("system"@[0] != "result"@[0]);
    assert("assistant"@.len() != "result"@.len());
}

/// A result of another session, or of none, ends the review as ambiguous and gives no result.
pub proof fn result_of_another_session_is_ambiguous(
    evidence: EvidenceView,
    line: Seq<char>,
    event: JsonView,
    command: TargetCommandView,
)
    requires
        json_parsed(line) == Ok::<_, Seq<char>>(event),
        says(event, "type"@, "result"@),
        !names_session(event, command.session_id),
    ensures
        lines_interpreted(evidence, seq![line], command).0 == evidence,
        lines_interpreted(evidence, seq![line], command).1 matches Err(
            InterpretationErrorView::Ambiguous(_),
        ),
{
    lemma_one_line(evidence, line, event, command);
    reveal_strlit("system");
    reveal_strlit("result");
    assert("system"@[0] != "result"@[0]);
    if let Some(JsonView::Text(text)) = event.member("session_id"@) {
        assert(says(event, "session_id"@, text));
    }
}

/// Any other event of the provider changes no evidence and ends no review.
pub proof fn other_events_change_no_evidence(
    evidence: EvidenceView,
    line: Seq<char>,
    event: JsonView,
    command: TargetCommandView,
)
    requires
        json_parsed(line) == Ok::<_, Seq<char>>(event),
        !says(event, "type"@, "result"@),
        !(says(event, "type"@, "system"@) && says(event, "subtype"@, "init"@)),
    ensures
        lines_interpreted(evidence, seq![line], command).0 == evidence,
        lines_interpreted(evidence, seq![line], command).1 is Ok,
{
    lemma_one_line(evidence, line, event, command);
}

/// A line that is no JSON ends the review as ambiguous, changes no evidence and tells nothing.
pub proof fn unreadable_line_is_ambiguous(
    evidence: EvidenceView,
    line: Seq<char>,
    command: TargetCommandView,
)
    requires
        json_parsed(line) is Err,
    ensures
        lines_interpreted(evidence, seq![line], command).0 == evidence,
        lines_interpreted(evidence, seq![line], command).1 matches Err(
            InterpretationErrorView::Ambiguous(_),
        ),
        lines_interpreted(evidence, seq![line], command).2.len() == 0,
{
    reveal_with_fuel(lines_interpreted, 2);
    assert(seq![line].drop_first() =~= Seq::empty());
}

/// Lines are read one after the other up to the first that ends the review: what comes before it
/// counts, what comes after it is not read, and the difficulties are told in their order.
pub proof fn lines_are_read_in_order(
    evidence: EvidenceView,
    first: Seq<Seq<char>>,
    second: Seq<Seq<char>>,
    command: TargetCommandView,
)
    ensures
        ({
            let part = lines_interpreted(evidence, first, command);
            let rest = lines_interpreted(part.0, second, command);
            let both = lines_interpreted(evidence, first + second, command);
            if part.1 is Err {
                both == part
            } else {
                both.0 == rest.0 && both.1 == rest.1 && both.2 == part.2 + rest.2
            }
        }),
        lines_interpreted(evidence, Seq::empty(), command).0 == evidence,
        lines_interpreted(evidence, Seq::empty(), command).1 is Ok,
        lines_interpreted(evidence, Seq::empty(), command).2.len() == 0,
    decreases first.len(),
{
    if first.len() == 0 {
        assert(first + second =~= second);
        let rest = lines_interpreted(evidence, second, command);
        assert(lines_interpreted(evidence, first, command).2 + rest.2 =~= rest.2);
    } else {
        let both = first + second;
        assert(both[0] == first[0]);
        assert(both.drop_first() =~= first.drop_first() + second);
        let after = crate::target::watch::line_interpreted(evidence, first[0], command).0;
        lines_are_read_in_order(after, first.drop_first(), second, command);
        let inner = lines_interpreted(after, first.drop_first(), command);
        let rest = lines_interpreted(inner.0, second, command);
        let told = match crate::target::watch::line_interpreted(evidence, first[0], command).2 {
            Some(diagnostic) => seq![diagnostic],
            None => Seq::empty(),
        };
        assert(told + (inner.2 + rest.2) =~= (told + inner.2) + rest.2);
    }
}

/// Output that ends with a newline is read line by line; what follows the last newline is not read.
pub proof fn only_complete_lines_are_read(
    evidence: EvidenceView,
    pending: Seq<u8>,
    command: TargetCommandView,
)
    requires
        forall|i: int| 0 <= i < pending.len() ==> #[trigger] pending[i] != 10u8,
    ensures
        output_interpreted(evidence, pending, command).0 == evidence,
        output_interpreted(evidence, pending, command).1 is Ok,
        output_interpreted(evidence, pending, command).2.len() == 0,
{
    lemma_no_newline(pending);
}

proof fn lemma_no_newline(bytes: Seq<u8>)
    requires
        forall|i: int| 0 <= i < bytes.len() ==> #[trigger] bytes[i] != 10u8,
    ensures
        crate::target::output::complete_length(bytes) == 0,
    decreases bytes.len(),
{
    if bytes.len() > 0 {
        assert(bytes.last() == bytes[bytes.len() - 1]);
        lemma_no_newline(bytes.drop_last());
    }
}

/// What one line of JSON means.
proof fn lemma_one_line(
    evidence: EvidenceView,
    line: Seq<char>,
    event: JsonView,
    command: TargetCommandView,
)
    requires
        json_parsed(line) == Ok::<_, Seq<char>>(event),
    ensures
        ({
            let (after, outcome) = evidence_after(evidence, stream_event(event), command);
            let read = lines_interpreted(evidence, seq![line], command);
            &&& read.0 == after
            &&& read.1 == outcome
            &&& read.2 == (match diagnostic_told(event) {
                Some(diagnostic) => seq![diagnostic],
                None => Seq::<TargetDiagnostic>::empty(),
            })
        }),
{
    reveal_with_fuel(lines_interpreted, 2);
    assert(seq![line].drop_first() =~= Seq::empty());
    let told = match diagnostic_told(event) {
        Some(diagnostic) => seq![diagnostic],
        None => Seq::<TargetDiagnostic>::empty(),
    };
    assert(told + Seq::<TargetDiagnostic>::empty() =~= told);
}

/// A retry is told with exactly its own numbers whenever it is numbered from one and within its own
/// maximum, the last permitted one included; any other retry event is told as unclassified.
pub proof fn valid_retry_is_told_exactly(
    evidence: EvidenceView,
    line: Seq<char>,
    event: JsonView,
    command: TargetCommandView,
)
    requires
        json_parsed(line) == Ok::<_, Seq<char>>(event),
        says(event, "type"@, "system"@),
        says(event, "subtype"@, "api_retry"@),
    ensures
        ({
            let told = lines_interpreted(evidence, seq![line], command).2;
            match (
                event.member("attempt"@),
                event.member("max_retries"@),
                event.member("retry_delay_ms"@),
            ) {
                (
                    Some(JsonView::Number(Some(attempt))),
                    Some(JsonView::Number(Some(max_retries))),
                    Some(JsonView::Number(Some(retry_delay_ms))),
                ) => told == (if 1 <= attempt && attempt <= max_retries {
                    seq![
                        TargetDiagnostic::ProviderRetrying { attempt, max_retries, retry_delay_ms },
                    ]
                } else {
                    seq![TargetDiagnostic::DiagnosticUnclassified]
                }),
                _ => told == seq![TargetDiagnostic::DiagnosticUnclassified],
            }
        }),
        lines_interpreted(evidence, seq![line], command).0 == evidence,
        lines_interpreted(evidence, seq![line], command).1 is Ok,
{
    lemma_one_line(evidence, line, event, command);
    reveal_strlit("system");
    reveal_strlit("result");
    reveal_strlit("init");
    reveal_strlit("api_retry");
    assert("init"@.len() != "api_retry"@.len());
    assert("system"@[0] != "result"@[0]);
}

/// An assistant message that is an API error is told: a failed authentication as such, any other as
/// unclassified.
pub proof fn api_error_is_told(
    evidence: EvidenceView,
    line: Seq<char>,
    event: JsonView,
    command: TargetCommandView,
)
    requires
        json_parsed(line) == Ok::<_, Seq<char>>(event),
        says(event, "type"@, "assistant"@),
        event.member("is_api_error_message"@) == Some(JsonView::Bool(true)),
    ensures
        lines_interpreted(evidence, seq![line], command).2 == (if says(
            event,
            "error"@,
            "authentication_failed"@,
        ) {
            seq![TargetDiagnostic::AuthenticationFailed]
        } else {
            seq![TargetDiagnostic::DiagnosticUnclassified]
        }),
        lines_interpreted(evidence, seq![line], command).0 == evidence,
        lines_interpreted(evidence, seq![line], command).1 is Ok,
{
    lemma_one_line(evidence, line, event, command);
    reveal_strlit("system");
    reveal_strlit("result");
    reveal_strlit("assistant");
    assert("assistant"@.len() != "system"@.len());
    assert("assistant"@.len() != "result"@.len());
}

/// No other event tells of a difficulty.
pub proof fn other_events_tell_no_difficulty(
    evidence: EvidenceView,
    line: Seq<char>,
    event: JsonView,
    command: TargetCommandView,
)
    requires
        json_parsed(line) == Ok::<_, Seq<char>>(event),
        !(says(event, "type"@, "system"@) && says(event, "subtype"@, "api_retry"@)),
        !(says(event, "type"@, "assistant"@) && event.member("is_api_error_message"@) == Some(
            JsonView::Bool(true),
        )),
    ensures
        lines_interpreted(evidence, seq![line], command).2.len() == 0,
{
    lemma_one_line(evidence, line, event, command);
}

/// The whole of an ordinary review: the provider names the intended session and the expected model,
/// tells whatever else it tells, and gives a result; then the review succeeds with that result.
pub proof fn ordinary_review_succeeds(
    evidence: EvidenceView,
    init_line: Seq<char>,
    init: JsonView,
    between: Seq<Seq<char>>,
    result_line: Seq<char>,
    outcome: JsonView,
    result: Seq<char>,
    command: TargetCommandView,
    stderr: Seq<char>,
)
    requires
        json_parsed(init_line) == Ok::<_, Seq<char>>(init),
        says(init, "type"@, "system"@),
        says(init, "subtype"@, "init"@),
        names_session(init, command.session_id),
        says(init, "model"@, command.expected_model),
        forall|i: int|
            0 <= i < between.len() ==> ((#[trigger] json_parsed(between[i])) matches Ok(event)
                && !says(event, "type"@, "result"@) && !says(event, "type"@, "system"@)),
        json_parsed(result_line) == Ok::<_, Seq<char>>(outcome),
        says(outcome, "type"@, "result"@),
        names_session(outcome, command.session_id),
        outcome.member("is_error"@) == Some(JsonView::Bool(false)),
        says(outcome, "result"@, result),
    ensures
        ({
            let lines = seq![init_line] + between + seq![result_line];
            let read = lines_interpreted(evidence, lines, command);
            &&& read.1 is Ok
            &&& review_concluded(
                ReviewFailuresView { terminal_error: None, provider_failure: None },
                false,
                true,
                PromptInputView::Written,
                read.0,
                command,
                stderr,
            ) matches TargetOutcomeView::Success(success) && success.result == result
                && success.observed_session_id == command.session_id && success.observed_model
                == command.expected_model
        }),
{
    matching_initialization_is_evidence(evidence, init_line, init, command);
    let known = lines_interpreted(evidence, seq![init_line], command).0;
    lemma_silent_lines(known, between, command);
    lines_are_read_in_order(evidence, seq![init_line], between, command);
    result_is_taken_by_its_flag(known, result_line, outcome, command);
    lines_are_read_in_order(evidence, seq![init_line] + between, seq![result_line], command);
    let read = lines_interpreted(evidence, seq![init_line] + between + seq![result_line], command);
    undisturbed_review_succeeds(
        ReviewFailuresView { terminal_error: None, provider_failure: None },
        read.0,
        command,
        stderr,
        result,
    );
}

proof fn lemma_silent_lines(
    evidence: EvidenceView,
    lines: Seq<Seq<char>>,
    command: TargetCommandView,
)
    requires
        forall|i: int|
            0 <= i < lines.len() ==> ((#[trigger] json_parsed(lines[i])) matches Ok(event) && !says(
                event,
                "type"@,
                "result"@,
            ) && !says(event, "type"@, "system"@)),
    ensures
        lines_interpreted(evidence, lines, command).0 == evidence,
        lines_interpreted(evidence, lines, command).1 is Ok,
    decreases lines.len(),
{
    if lines.len() > 0 {
        let event = json_parsed(lines[0])->Ok_0;
        other_events_change_no_evidence(evidence, lines[0], event, command);
        let rest = lines.drop_first();
        assert forall|i: int| 0 <= i < rest.len() implies ((#[trigger] json_parsed(
            rest[i],
        )) matches Ok(event) && !says(event, "type"@, "result"@) && !says(
            event,
            "type"@,
            "system"@,
        )) by {
            assert(rest[i] == lines[i + 1]);
        }
        lemma_silent_lines(evidence, rest, command);
        lines_are_read_in_order(evidence, seq![lines[0]], rest, command);
        assert(seq![lines[0]] + rest =~= lines);
    }
}

/// The last result counts: a later result of the intended session takes the place of an earlier one.
pub proof fn last_result_counts(
    evidence: EvidenceView,
    command: TargetCommandView,
    line: Seq<char>,
    event: JsonView,
    text: Seq<char>,
)
    requires
        json_parsed(line) == Ok::<_, Seq<char>>(event),
        says(event, "type"@, "result"@),
        names_session(event, command.session_id),
        event.member("is_error"@) == Some(JsonView::Bool(false)),
        says(event, "result"@, text),
        evidence.init_session == Some(command.session_id),
        evidence.init_model == Some(command.expected_model),
    ensures
        proven(lines_interpreted(evidence, seq![line], command).0, command) matches Ok(success)
            && success.result == text && success.observed_version == evidence.version,
{
    result_is_taken_by_its_flag(evidence, line, event, command);
}

/// The way of a review that is launched: the child is spawned, its streams are taken, it is registered,
/// the launch is reported, the permission is awaited, and what was observed of the child is the
/// outcome once the child is removed.
pub proof fn launched_review_tells_what_was_observed(outcome: TargetOutcomeView)
    ensures
        ({
            let spawned = review_advanced(review_begun(false), ReviewEventView::Spawned(Ok(())));
            let captured = review_advanced(
                spawned,
                ReviewEventView::Captured { stdin: true, stdout: true, stderr: true },
            );
            let registered = review_advanced(
                captured,
                ReviewEventView::Registered { refusal: None },
            );
            let reported = review_advanced(
                registered,
                ReviewEventView::Reported { received: true },
            );
            let permitted = review_advanced(reported, ReviewEventView::Permission(Ok(())));
            let observed = review_advanced(permitted, ReviewEventView::Observed(outcome));
            let removed = review_advanced(observed, ReviewEventView::Removed(Ok(())));
            &&& review_begun(false) is Spawn
            &&& spawned is Capture
            &&& captured is RegisterChild
            &&& registered is ReportLaunched
            &&& reported is AwaitPermission
            &&& permitted is Observe
            &&& observed is RemoveChild
            &&& removed == ReviewStepView::Done(outcome)
        }),
{
}

/// Every other way of a review ends as what went wrong: a review that was cancelled in time is not
/// launched, a child that could not be spawned is told as such, a stream or a registration that is
/// missing is indeterminate, and a child that may not run is terminated, awaited and removed before
/// the reason is told.
pub proof fn unlaunched_review_tells_why(reason: Seq<char>, failure: Seq<char>)
    ensures
        review_begun(true) is ReportCancelled,
        review_advanced(
            ReviewStepView::ReportCancelled,
            ReviewEventView::Reported { received: true },
        ) matches ReviewStepView::Done(TargetOutcomeView::CancelledBeforeLaunch(_)),
        review_advanced(
            ReviewStepView::ReportCancelled,
            ReviewEventView::Reported { received: false },
        ) matches ReviewStepView::Done(TargetOutcomeView::Indeterminate(_)),
        review_advanced(
            review_advanced(ReviewStepView::Spawn, ReviewEventView::Spawned(Err(failure))),
            ReviewEventView::Reported { received: true },
        ) == ReviewStepView::Done(TargetOutcomeView::SpawnFailed(failure)),
        review_advanced(
            review_advanced(ReviewStepView::Spawn, ReviewEventView::Spawned(Err(failure))),
            ReviewEventView::Reported { received: false },
        ) matches ReviewStepView::Done(TargetOutcomeView::Indeterminate(_)),
        forall|stdin: bool, stdout: bool, stderr: bool|
            !(stdin && stdout && stderr) ==> (#[trigger] review_advanced(
                ReviewStepView::Capture,
                ReviewEventView::Captured { stdin, stdout, stderr },
            )) matches ReviewStepView::Done(TargetOutcomeView::Indeterminate(_)),
        review_advanced(
            ReviewStepView::RegisterChild,
            ReviewEventView::Registered { refusal: Some(failure) },
        ) == ReviewStepView::Done(TargetOutcomeView::Indeterminate(failure)),
        review_advanced(
            ReviewStepView::ReportLaunched,
            ReviewEventView::Reported { received: false },
        ) is Terminate,
        review_advanced(
            ReviewStepView::AwaitPermission,
            ReviewEventView::Permission(Err(reason)),
        ) == (ReviewStepView::Terminate { reason }),
        review_advanced(ReviewStepView::AwaitPermission, ReviewEventView::PermissionLost)
            is Terminate,
        ({
            let terminated = review_advanced(
                ReviewStepView::Terminate { reason },
                ReviewEventView::Terminated(Ok(())),
            );
            let exited = review_advanced(terminated, ReviewEventView::Exited(Ok(())));
            let removed = review_advanced(exited, ReviewEventView::Removed(Ok(())));
            &&& terminated is AwaitExit
            &&& exited is RemoveStopped
            &&& removed == ReviewStepView::Done(TargetOutcomeView::Indeterminate(reason))
            &&& review_advanced(
                ReviewStepView::Terminate { reason },
                ReviewEventView::Terminated(Err(failure)),
            ) == ReviewStepView::Done(TargetOutcomeView::Indeterminate(failure))
            &&& review_advanced(terminated, ReviewEventView::Exited(Err(failure)))
                == ReviewStepView::Done(TargetOutcomeView::Indeterminate(failure))
            &&& review_advanced(exited, ReviewEventView::Removed(Err(failure)))
                == ReviewStepView::Done(TargetOutcomeView::Indeterminate(failure))
        }),
        forall|outcome: TargetOutcomeView| #[trigger]
            review_advanced(
                ReviewStepView::RemoveChild { outcome },
                ReviewEventView::Removed(Err(failure)),
            ) == ReviewStepView::Done(TargetOutcomeView::Indeterminate(failure)),
{
}

/// An observation in which nothing fails goes round from the output to the status, from there to the
/// cancellation and back to the output, and records nothing; once the child has exited, the last
/// output is read and the exit is told as it was seen.
pub proof fn undisturbed_watch_records_nothing(failures: ReviewFailuresView, success: bool)
    ensures
        ({
            let polled = watch_moved(WatchStepView::Poll, WatchEventView::Polled(Ok(())), failures);
            let read = watch_moved(polled.0, WatchEventView::Interpreted(Ok(())), failures);
            let running = watch_moved(read.0, WatchEventView::Status(Ok(None)), failures);
            let round = watch_moved(
                running.0,
                WatchEventView::Cancelled { requested: false },
                failures,
            );
            let cancelled = watch_moved(
                running.0,
                WatchEventView::Cancelled { requested: true },
                failures,
            );
            let exited = watch_moved(read.0, WatchEventView::Status(Ok(Some(success))), failures);
            let drained = watch_moved(exited.0, WatchEventView::Drained(Ok(())), failures);
            let last = watch_moved(drained.0, WatchEventView::Interpreted(Ok(())), failures);
            &&& polled == (WatchStepView::Interpret, failures)
            &&& read == (WatchStepView::CheckStatus, failures)
            &&& running == (WatchStepView::CheckCancel, failures)
            &&& round == (WatchStepView::Poll, failures)
            &&& cancelled == (WatchStepView::TerminateCancelled, failures)
            &&& watch_moved(cancelled.0, WatchEventView::Terminated(Ok(())), failures) == (
                WatchStepView::Poll,
                failures,
            )
            &&& exited == (WatchStepView::Drain { success }, failures)
            &&& drained == (WatchStepView::InterpretLast { success }, failures)
            &&& last == (WatchStepView::Conclude { success }, failures)
        }),
{
}

/// What ends a review while its child runs terminates the child and is recorded in its own words: a
/// failure of the provider as such, everything else as what disturbed the observation, with what
/// became of the termination.
pub proof fn what_ends_a_watch_is_recorded(
    failures: ReviewFailuresView,
    message: Seq<char>,
    refusal: Seq<char>,
    success: bool,
)
    ensures
        ({
            let provider = InterpretationErrorView::ProviderFailure(message);
            let ambiguous = InterpretationErrorView::Ambiguous(message);
            let disturbed = ReviewFailuresView { terminal_error: Some(message), ..failures };
            let failed = ReviewFailuresView { provider_failure: Some(message), ..failures };
            let told = ReviewFailuresView {
                terminal_error: Some(message + "; direct-child termination failed: "@ + refusal),
                ..failures
            };
            let ok = WatchEventView::Terminated(Ok(()));
            let bad = WatchEventView::Terminated(Err(refusal));
            let unpolled = WatchStepView::TerminateUnpolled { failure: message };
            let unseen = WatchStepView::TerminateUnseen { failure: message };
            let by_provider = WatchStepView::TerminateInterpreted { error: provider };
            let by_line = WatchStepView::TerminateInterpreted { error: ambiguous };
            &&& watch_moved(WatchStepView::Poll, WatchEventView::Polled(Err(message)), failures) == (
                unpolled,
                failures,
            )
            &&& watch_moved(
                WatchStepView::CheckStatus,
                WatchEventView::Status(Err(message)),
                failures,
            ) == (unseen, failures)
            &&& watch_moved(
                WatchStepView::Interpret,
                WatchEventView::Interpreted(Err(provider)),
                failures,
            ) == (by_provider, failures)
            &&& watch_moved(
                WatchStepView::Interpret,
                WatchEventView::Interpreted(Err(ambiguous)),
                failures,
            ) == (by_line, failures)
            &&& watch_moved(unpolled, ok, failures) == (WatchStepView::Interpret, disturbed)
            &&& watch_moved(unpolled, bad, failures) == (WatchStepView::Interpret, told)
            &&& watch_moved(unseen, ok, failures) == (WatchStepView::CheckCancel, disturbed)
            &&& watch_moved(unseen, bad, failures) == (WatchStepView::CheckCancel, told)
            &&& watch_moved(by_line, ok, failures) == (WatchStepView::CheckStatus, disturbed)
            &&& watch_moved(by_line, bad, failures) == (WatchStepView::CheckStatus, told)
            &&& watch_moved(by_provider, ok, failures) == (WatchStepView::CheckStatus, failed)
            &&& watch_moved(by_provider, bad, failures) == (
                WatchStepView::CheckStatus,
                ReviewFailuresView { terminal_error: Some(refusal), ..failed },
            )
            &&& watch_moved(
                WatchStepView::TerminateCancelled,
                WatchEventView::Terminated(Err(message)),
                failures,
            ) == (WatchStepView::Poll, disturbed)
            &&& watch_moved(
                WatchStepView::Drain { success },
                WatchEventView::Drained(Err(message)),
                failures,
            ) == (WatchStepView::InterpretLast { success }, disturbed)
            &&& watch_moved(
                WatchStepView::InterpretLast { success },
                WatchEventView::Interpreted(Err(provider)),
                failures,
            ) == (WatchStepView::Conclude { success }, failed)
            &&& watch_moved(
                WatchStepView::InterpretLast { success },
                WatchEventView::Interpreted(Err(ambiguous)),
                failures,
            ) == (WatchStepView::Conclude { success }, disturbed)
        }),
{
}

} // verus!
