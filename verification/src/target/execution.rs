//! Coordinates one launch, input, output interpretation, and direct-child exit.

use vstd::prelude::*;
use vstd::string::*;

use crate::contract::target::{
    TargetCommand, TargetCommandView, TargetOutcome, TargetOutcomeView, TargetSuccessView, PROVIDER,
};
use crate::target::output::{message_with_errors, with_stderr};
use crate::target::stream::{
    proven, Evidence, EvidenceView, InterpretationError, InterpretationErrorView,
};
use crate::text::{joined3, optional, told};

verus! {

/// What a one-shot review does next.
#[derive(Debug, PartialEq, Eq)]
pub enum ReviewStep {
    /// Report that the review was cancelled before its launch.
    ReportCancelled,
    /// Spawn the direct child.
    Spawn,
    /// Report that the child could not be spawned.
    ReportSpawnFailed { error: String },
    /// Take the three standard streams of the child.
    Capture,
    /// Register the child.
    RegisterChild,
    /// Report the launch.
    ReportLaunched,
    /// Wait for the permission that follows the durable Running transition.
    AwaitPermission,
    /// Terminate a child that may not run.
    Terminate { reason: String },
    /// Wait for the terminated child.
    AwaitExit { reason: String },
    /// Remove the stopped child.
    RemoveStopped { reason: String },
    /// Write the prompt and observe the child to its end.
    Observe,
    /// Remove the child that has ended.
    RemoveChild { outcome: TargetOutcome },
    /// The review is over.
    Done(TargetOutcome),
}

/// The mathematical content of [`ReviewStep`].
#[verifier::ext_equal]
pub enum ReviewStepView {
    ReportCancelled,
    Spawn,
    ReportSpawnFailed { error: Seq<char> },
    Capture,
    RegisterChild,
    ReportLaunched,
    AwaitPermission,
    Terminate { reason: Seq<char> },
    AwaitExit { reason: Seq<char> },
    RemoveStopped { reason: Seq<char> },
    Observe,
    RemoveChild { outcome: TargetOutcomeView },
    Done(TargetOutcomeView),
}

impl View for ReviewStep {
    type V = ReviewStepView;

    open spec fn view(&self) -> ReviewStepView {
        match *self {
            ReviewStep::ReportCancelled => ReviewStepView::ReportCancelled,
            ReviewStep::Spawn => ReviewStepView::Spawn,
            ReviewStep::ReportSpawnFailed { error } => ReviewStepView::ReportSpawnFailed {
                error: error@,
            },
            ReviewStep::Capture => ReviewStepView::Capture,
            ReviewStep::RegisterChild => ReviewStepView::RegisterChild,
            ReviewStep::ReportLaunched => ReviewStepView::ReportLaunched,
            ReviewStep::AwaitPermission => ReviewStepView::AwaitPermission,
            ReviewStep::Terminate { reason } => ReviewStepView::Terminate {
                reason: reason@,
            },
            ReviewStep::AwaitExit { reason } => ReviewStepView::AwaitExit {
                reason: reason@,
            },
            ReviewStep::RemoveStopped { reason } => ReviewStepView::RemoveStopped {
                reason: reason@,
            },
            ReviewStep::Observe => ReviewStepView::Observe,
            ReviewStep::RemoveChild { outcome } => ReviewStepView::RemoveChild {
                outcome: outcome@,
            },
            ReviewStep::Done(value) => ReviewStepView::Done(value@),
        }
    }
}

/// What became of a step.
#[derive(Debug, PartialEq, Eq)]
pub enum ReviewEvent {
    Reported { received: bool },
    Spawned(Result<(), String>),
    Captured { stdin: bool, stdout: bool, stderr: bool },
    Registered { refusal: Option<String> },
    Permission(Result<(), String>),
    PermissionLost,
    Terminated(Result<(), String>),
    Exited(Result<(), String>),
    Removed(Result<(), String>),
    Observed(TargetOutcome),
}

/// The mathematical content of [`ReviewEvent`].
#[verifier::ext_equal]
pub enum ReviewEventView {
    Reported { received: bool },
    Spawned(Result<(), Seq<char>>),
    Captured { stdin: bool, stdout: bool, stderr: bool },
    Registered { refusal: Option<Seq<char>> },
    Permission(Result<(), Seq<char>>),
    PermissionLost,
    Terminated(Result<(), Seq<char>>),
    Exited(Result<(), Seq<char>>),
    Removed(Result<(), Seq<char>>),
    Observed(TargetOutcomeView),
}

impl View for ReviewEvent {
    type V = ReviewEventView;

    open spec fn view(&self) -> ReviewEventView {
        match *self {
            ReviewEvent::Reported { received } => ReviewEventView::Reported {
                received,
            },
            ReviewEvent::Spawned(value) => ReviewEventView::Spawned(told(value)),
            ReviewEvent::Captured { stdin, stdout, stderr } => ReviewEventView::Captured {
                stdin,
                stdout,
                stderr,
            },
            ReviewEvent::Registered { refusal } => ReviewEventView::Registered {
                refusal: optional(refusal),
            },
            ReviewEvent::Permission(value) => ReviewEventView::Permission(told(value)),
            ReviewEvent::PermissionLost => ReviewEventView::PermissionLost,
            ReviewEvent::Terminated(value) => ReviewEventView::Terminated(told(value)),
            ReviewEvent::Exited(value) => ReviewEventView::Exited(told(value)),
            ReviewEvent::Removed(value) => ReviewEventView::Removed(told(value)),
            ReviewEvent::Observed(value) => ReviewEventView::Observed(value@),
        }
    }
}

/// What became of writing the prompt.
#[derive(Debug, PartialEq, Eq)]
pub enum PromptInput {
    Written,
    Failed(String),
    Panicked,
}

/// The mathematical content of [`PromptInput`].
#[verifier::ext_equal]
pub enum PromptInputView {
    Written,
    Failed(Seq<char>),
    Panicked,
}

impl View for PromptInput {
    type V = PromptInputView;

    open spec fn view(&self) -> PromptInputView {
        match *self {
            PromptInput::Written => PromptInputView::Written,
            PromptInput::Failed(value) => PromptInputView::Failed(value@),
            PromptInput::Panicked => PromptInputView::Panicked,
        }
    }
}

/// What went wrong while a review was observed.
#[derive(Debug, PartialEq, Eq)]
pub struct ReviewFailures {
    pub terminal_error: Option<String>,
    pub provider_failure: Option<String>,
}

/// The mathematical content of [`ReviewFailures`].
#[verifier::ext_equal]
pub struct ReviewFailuresView {
    pub terminal_error: Option<Seq<char>>,
    pub provider_failure: Option<Seq<char>>,
}

impl View for ReviewFailures {
    type V = ReviewFailuresView;

    open spec fn view(&self) -> ReviewFailuresView {
        ReviewFailuresView {
            terminal_error: optional(self.terminal_error),
            provider_failure: optional(self.provider_failure),
        }
    }
}

/// An outcome that proves nothing.
pub open spec fn indeterminate(message: Seq<char>) -> ReviewStepView {
    ReviewStepView::Done(TargetOutcomeView::Indeterminate(message))
}

/// A review that was cancelled before its launch is not launched.
pub open spec fn review_begun(cancel_requested: bool) -> ReviewStepView {
    if cancel_requested {
        ReviewStepView::ReportCancelled
    } else {
        ReviewStepView::Spawn
    }
}

/// What a review does after a step became what the event says. An event that does not belong to the
/// step changes nothing.
pub open spec fn review_advanced(step: ReviewStepView, event: ReviewEventView) -> ReviewStepView {
    match (step, event) {
        (ReviewStepView::ReportCancelled, ReviewEventView::Reported { received }) => if received {
            ReviewStepView::Done(
                TargetOutcomeView::CancelledBeforeLaunch(
                    "cancellation was observed before direct "@ + PROVIDER@ + " launch"@,
                ),
            )
        } else {
            indeterminate(
                "Control stopped waiting before pre-launch cancellation could be reported"@,
            )
        },
        (ReviewStepView::Spawn, ReviewEventView::Spawned(spawned)) => match spawned {
            Ok(()) => ReviewStepView::Capture,
            Err(error) => ReviewStepView::ReportSpawnFailed { error },
        },
        (ReviewStepView::ReportSpawnFailed { error }, ReviewEventView::Reported { received }) =>
            if received {
            ReviewStepView::Done(TargetOutcomeView::SpawnFailed(error))
        } else {
            indeterminate(
                "Control stopped waiting before target launch failure could be reported"@,
            )
        },
        (ReviewStepView::Capture, ReviewEventView::Captured { stdin, stdout, stderr }) => if !stdin {
            indeterminate("direct child stdin was not captured"@)
        } else if !stdout {
            indeterminate("direct child stdout was not captured"@)
        } else if !stderr {
            indeterminate("direct child stderr was not captured"@)
        } else {
            ReviewStepView::RegisterChild
        },
        (ReviewStepView::RegisterChild, ReviewEventView::Registered { refusal }) => match refusal {
            None => ReviewStepView::ReportLaunched,
            Some(message) => indeterminate(message),
        },
        (ReviewStepView::ReportLaunched, ReviewEventView::Reported { received }) => if received {
            ReviewStepView::AwaitPermission
        } else {
            ReviewStepView::Terminate {
                reason: "Control stopped waiting before durable Running acknowledgement"@,
            }
        },
        (ReviewStepView::AwaitPermission, ReviewEventView::Permission(permitted)) => match permitted {
            Ok(()) => ReviewStepView::Observe,
            Err(reason) => ReviewStepView::Terminate { reason },
        },
        (ReviewStepView::AwaitPermission, ReviewEventView::PermissionLost) =>
            ReviewStepView::Terminate {
            reason: "Control did not grant durable Running acknowledgement"@,
        },
        (ReviewStepView::Terminate { reason }, ReviewEventView::Terminated(terminated)) =>
            match terminated {
            Ok(()) => ReviewStepView::AwaitExit { reason },
            Err(message) => indeterminate(message),
        },
        (ReviewStepView::AwaitExit { reason }, ReviewEventView::Exited(exited)) => match exited {
            Ok(()) => ReviewStepView::RemoveStopped { reason },
            Err(message) => indeterminate(message),
        },
        (ReviewStepView::RemoveStopped { reason }, ReviewEventView::Removed(removed)) =>
            match removed {
            Ok(()) => indeterminate(reason),
            Err(message) => indeterminate(message),
        },
        (ReviewStepView::Observe, ReviewEventView::Observed(outcome)) =>
            ReviewStepView::RemoveChild { outcome },
        (ReviewStepView::RemoveChild { outcome }, ReviewEventView::Removed(removed)) =>
            match removed {
            Ok(()) => ReviewStepView::Done(outcome),
            Err(message) => indeterminate(message),
        },
        (step, _) => step,
    }
}

/// Begins a review.
pub fn begin(cancel_requested: bool) -> (step: ReviewStep)
    ensures
        step@ == review_begun(cancel_requested),
{
    if cancel_requested {
        ReviewStep::ReportCancelled
    } else {
        ReviewStep::Spawn
    }
}

/// An outcome that proves nothing.
fn unproven(message: String) -> (step: ReviewStep)
    ensures
        step@ == indeterminate(message@),
{
    ReviewStep::Done(TargetOutcome::Indeterminate(message))
}

/// Goes on with a review.
pub fn execute(step: ReviewStep, event: ReviewEvent) -> (next: ReviewStep)
    ensures
        next@ == review_advanced(step@, event@),
{
    match (step, event) {
        (ReviewStep::ReportCancelled, ReviewEvent::Reported { received }) => {
            if received {
                ReviewStep::Done(
                    TargetOutcome::CancelledBeforeLaunch(
                        joined3("cancellation was observed before direct ", PROVIDER, " launch"),
                    ),
                )
            } else {
                unproven(
                    "Control stopped waiting before pre-launch cancellation could be reported".to_owned(),
                )
            }
        },
        (ReviewStep::Spawn, ReviewEvent::Spawned(spawned)) => match spawned {
            Ok(()) => ReviewStep::Capture,
            Err(error) => ReviewStep::ReportSpawnFailed { error },
        },
        (ReviewStep::ReportSpawnFailed { error }, ReviewEvent::Reported { received }) => {
            if received {
                ReviewStep::Done(TargetOutcome::SpawnFailed(error))
            } else {
                unproven(
                    "Control stopped waiting before target launch failure could be reported".to_owned(),
                )
            }
        },
        (ReviewStep::Capture, ReviewEvent::Captured { stdin, stdout, stderr }) => {
            if !stdin {
                unproven("direct child stdin was not captured".to_owned())
            } else if !stdout {
                unproven("direct child stdout was not captured".to_owned())
            } else if !stderr {
                unproven("direct child stderr was not captured".to_owned())
            } else {
                ReviewStep::RegisterChild
            }
        },
        (ReviewStep::RegisterChild, ReviewEvent::Registered { refusal }) => match refusal {
            None => ReviewStep::ReportLaunched,
            Some(message) => unproven(message),
        },
        (ReviewStep::ReportLaunched, ReviewEvent::Reported { received }) => {
            if received {
                ReviewStep::AwaitPermission
            } else {
                ReviewStep::Terminate {
                    reason: "Control stopped waiting before durable Running acknowledgement".to_owned(),
                }
            }
        },
        (ReviewStep::AwaitPermission, ReviewEvent::Permission(permitted)) => match permitted {
            Ok(()) => ReviewStep::Observe,
            Err(reason) => ReviewStep::Terminate { reason },
        },
        (ReviewStep::AwaitPermission, ReviewEvent::PermissionLost) => ReviewStep::Terminate {
            reason: "Control did not grant durable Running acknowledgement".to_owned(),
        },
        (ReviewStep::Terminate { reason }, ReviewEvent::Terminated(terminated)) => match terminated {
            Ok(()) => ReviewStep::AwaitExit { reason },
            Err(message) => unproven(message),
        },
        (ReviewStep::AwaitExit { reason }, ReviewEvent::Exited(exited)) => match exited {
            Ok(()) => ReviewStep::RemoveStopped { reason },
            Err(message) => unproven(message),
        },
        (ReviewStep::RemoveStopped { reason }, ReviewEvent::Removed(removed)) => match removed {
            Ok(()) => unproven(reason),
            Err(message) => unproven(message),
        },
        (ReviewStep::Observe, ReviewEvent::Observed(outcome)) => ReviewStep::RemoveChild {
            outcome,
        },
        (ReviewStep::RemoveChild { outcome }, ReviewEvent::Removed(removed)) => match removed {
            Ok(()) => ReviewStep::Done(outcome),
            Err(message) => unproven(message),
        },
        (step, _) => step,
    }
}

/// A failure with what became of the termination that it caused.
pub open spec fn terminated_after(root: Seq<char>, termination: Result<(), Seq<char>>) -> Seq<char> {
    match termination {
        Ok(()) => root,
        Err(message) => root + "; direct-child termination failed: "@ + message,
    }
}

/// A failure with what became of the termination that it caused.
fn terminate_after_error(root: String, termination: &Result<(), String>) -> (text: String)
    ensures
        text@ == terminated_after(root@, told(*termination)),
{
    match termination {
        Ok(()) => root,
        Err(message) => joined3(
            root.as_str(),
            "; direct-child termination failed: ",
            message.as_str(),
        ),
    }
}

/// The outcome of a review whose output could not even be read.
pub fn output_unavailable(error: String, termination: &Result<(), String>) -> (
outcome: TargetOutcome)
    ensures
        outcome@ == TargetOutcomeView::Indeterminate(
            match told(*termination) {
                Ok(()) => error@,
                Err(message) => error@ + "; direct child could not be terminated: "@ + message,
            },
        ),
{
    TargetOutcome::Indeterminate(
        match termination {
            Ok(()) => error,
            Err(message) => joined3(
                error.as_str(),
                "; direct child could not be terminated: ",
                message.as_str(),
            ),
        },
    )
}

impl ReviewFailures {
    /// Nothing went wrong yet.
    pub fn new() -> (failures: ReviewFailures)
        ensures
            failures@ == (ReviewFailuresView { terminal_error: None, provider_failure: None }),
    {
        ReviewFailures { terminal_error: None, provider_failure: None }
    }

    /// The child could not be polled or its status not be seen; it was told to terminate.
    pub fn observation_failed(&mut self, error: String, termination: &Result<(), String>)
        ensures
            final(self)@ == (ReviewFailuresView {
                terminal_error: Some(terminated_after(error@, told(*termination))),
                ..old(self)@
            }),
    {
        self.terminal_error = Some(terminate_after_error(error, termination));
    }

    /// The output ended the review while the child ran; it was told to terminate.
    pub fn interpretation_failed(
        &mut self,
        error: InterpretationError,
        termination: &Result<(), String>,
    )
        ensures
            final(self)@ == (match error@ {
                InterpretationErrorView::ProviderFailure(message) => ReviewFailuresView {
                    provider_failure: Some(message),
                    terminal_error: match told(*termination) {
                        Ok(()) => old(self)@.terminal_error,
                        Err(failure) => Some(failure),
                    },
                },
                InterpretationErrorView::Ambiguous(message) => ReviewFailuresView {
                    terminal_error: Some(terminated_after(message, told(*termination))),
                    ..old(self)@
                },
            }),
    {
        match error {
            InterpretationError::ProviderFailure(message) => {
                self.provider_failure = Some(message);
                match termination {
                    Ok(()) => {},
                    Err(failure) => {
                        self.terminal_error = Some(failure.clone());
                    },
                }
            },
            InterpretationError::Ambiguous(message) => {
                self.terminal_error = Some(terminate_after_error(message, termination));
            },
        }
    }

    /// The last output ended the review after the child had exited.
    pub fn last_interpretation_failed(&mut self, error: InterpretationError)
        ensures
            final(self)@ == (match error@ {
                InterpretationErrorView::ProviderFailure(message) => ReviewFailuresView {
                    provider_failure: Some(message),
                    ..old(self)@
                },
                InterpretationErrorView::Ambiguous(message) => ReviewFailuresView {
                    terminal_error: Some(message),
                    ..old(self)@
                },
            }),
    {
        match error {
            InterpretationError::ProviderFailure(message) => {
                self.provider_failure = Some(message);
            },
            InterpretationError::Ambiguous(message) => {
                self.terminal_error = Some(message);
            },
        }
    }

    /// The last output could not be drained, or a cancelled child not be terminated.
    pub fn failed(&mut self, error: String)
        ensures
            final(self)@ == (ReviewFailuresView { terminal_error: Some(error@), ..old(self)@ }),
    {
        self.terminal_error = Some(error);
    }
}

/// How a review ended whose child exited. A cancellation explains any end; then a failure of the
/// provider comes before ambiguous evidence, that before an unsuccessful exit, that before a prompt
/// that was not written, and only then the evidence decides.
pub open spec fn review_concluded(
    failures: ReviewFailuresView,
    cancelled: bool,
    exit_success: bool,
    prompt: PromptInputView,
    evidence: EvidenceView,
    command: TargetCommandView,
    stderr: Seq<char>,
) -> TargetOutcomeView {
    if cancelled {
        TargetOutcomeView::Cancelled("direct "@ + PROVIDER@ + " child termination was observed"@)
    } else if failures.provider_failure is Some {
        TargetOutcomeView::Failed(
            message_with_errors(failures.provider_failure->Some_0, stderr),
        )
    } else if failures.terminal_error is Some {
        TargetOutcomeView::Indeterminate(
            message_with_errors(failures.terminal_error->Some_0, stderr),
        )
    } else if !exit_success {
        TargetOutcomeView::Failed(
            message_with_errors("direct "@ + PROVIDER@ + " child exited unsuccessfully"@, stderr),
        )
    } else {
        match prompt {
            PromptInputView::Failed(message) => TargetOutcomeView::Indeterminate(
                message_with_errors(message, stderr),
            ),
            PromptInputView::Panicked => TargetOutcomeView::Indeterminate(
                message_with_errors("prompt writer panicked"@, stderr),
            ),
            PromptInputView::Written => match proven(evidence, command) {
                Ok(success) => TargetOutcomeView::Success(success),
                Err(InterpretationErrorView::ProviderFailure(message)) => TargetOutcomeView::Failed(
                    message_with_errors(message, stderr),
                ),
                Err(InterpretationErrorView::Ambiguous(message)) =>
                    TargetOutcomeView::Indeterminate(message_with_errors(message, stderr)),
            },
        }
    }
}

/// Whether the writing of the prompt bears on how a review ended whose child exited. A prompt that
/// bears on nothing is not waited for.
pub fn prompt_decides(failures: &ReviewFailures, cancelled: bool, exit_success: bool) -> (
decides: bool)
    ensures
        decides == (!cancelled && failures@.provider_failure is None
            && failures@.terminal_error is None && exit_success),
{
    !cancelled && failures.provider_failure.is_none() && failures.terminal_error.is_none()
        && exit_success
}

/// Where the prompt bears on nothing, a review ends in the same way whatever became of the prompt.
pub proof fn undecided_prompt_is_ignored(
    failures: ReviewFailuresView,
    cancelled: bool,
    exit_success: bool,
    prompt: PromptInputView,
    other: PromptInputView,
    evidence: EvidenceView,
    command: TargetCommandView,
    stderr: Seq<char>,
)
    requires
        cancelled || failures.provider_failure is Some || failures.terminal_error is Some
            || !exit_success,
    ensures
        review_concluded(
            failures,
            cancelled,
            exit_success,
            prompt,
            evidence,
            command,
            stderr,
        ) == review_concluded(failures, cancelled, exit_success, other, evidence, command, stderr),
{
}

/// Tells how a review ended whose child exited.
pub fn conclude(
    failures: ReviewFailures,
    cancelled: bool,
    exit_success: bool,
    prompt: PromptInput,
    evidence: Evidence,
    command: &TargetCommand,
    stderr: &str,
) -> (outcome: TargetOutcome)
    ensures
        outcome@ == review_concluded(
            failures@,
            cancelled,
            exit_success,
            prompt@,
            evidence@,
            command@,
            stderr@,
        ),
{
    if cancelled {
        return TargetOutcome::Cancelled(
            joined3("direct ", PROVIDER, " child termination was observed"),
        );
    }
    match failures.provider_failure {
        Some(error) => {
            return TargetOutcome::Failed(with_stderr(error, stderr));
        },
        None => {},
    }
    match failures.terminal_error {
        Some(error) => {
            return TargetOutcome::Indeterminate(with_stderr(error, stderr));
        },
        None => {},
    }
    if !exit_success {
        return TargetOutcome::Failed(
            with_stderr(joined3("direct ", PROVIDER, " child exited unsuccessfully"), stderr),
        );
    }
    match prompt {
        PromptInput::Written => {},
        PromptInput::Failed(error) => {
            return TargetOutcome::Indeterminate(with_stderr(error, stderr));
        },
        PromptInput::Panicked => {
            return TargetOutcome::Indeterminate(
                with_stderr("prompt writer panicked".to_owned(), stderr),
            );
        },
    }
    match evidence.success(command) {
        Ok(success) => TargetOutcome::Success(success),
        Err(InterpretationError::ProviderFailure(error)) => TargetOutcome::Failed(
            with_stderr(error, stderr),
        ),
        Err(InterpretationError::Ambiguous(error)) => TargetOutcome::Indeterminate(
            with_stderr(error, stderr),
        ),
    }
}

/// A child is observed, and its prompt written, only after the permission that follows the durable
/// Running transition.
pub proof fn review_runs_only_with_permission(step: ReviewStepView, event: ReviewEventView)
    requires
        review_advanced(step, event) is Observe,
        !(step is Observe),
    ensures
        step is AwaitPermission,
        event matches ReviewEventView::Permission(permitted) && permitted is Ok,
{
}

/// A review succeeds only with an undisturbed observation, a successful exit, a written prompt, and
/// evidence of the intended session and the expected model.
pub proof fn success_needs_everything(
    failures: ReviewFailuresView,
    cancelled: bool,
    exit_success: bool,
    prompt: PromptInputView,
    evidence: EvidenceView,
    command: TargetCommandView,
    stderr: Seq<char>,
    success: TargetSuccessView,
)
    requires
        review_concluded(
            failures,
            cancelled,
            exit_success,
            prompt,
            evidence,
            command,
            stderr,
        ) == TargetOutcomeView::Success(success),
    ensures
        !cancelled && exit_success && prompt is Written,
        failures.provider_failure is None && failures.terminal_error is None,
        success.observed_session_id == command.session_id,
        success.observed_model == command.expected_model,
        evidence.init_session == Some(command.session_id),
        evidence.result == Some(success.result),
{
}

} // verus!
