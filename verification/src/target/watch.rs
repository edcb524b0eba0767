//! Observes the child of one review to its end.

use vstd::prelude::*;

use crate::contract::target::{
    TargetCommand, TargetCommandView, TargetDiagnostic, PROVIDER,
};
use crate::json::json_parsed;
use crate::target::execution::{terminated_after, ReviewFailures, ReviewFailuresView};
use crate::target::output::{complete_length, lines_taken, OutputBuffer};
use crate::target::stream::{
    diagnostic_told, evidence_after, interpretation_error, stream_event, Evidence, EvidenceView,
    InterpretationError, InterpretationErrorView,
};
use crate::text::{told, views};

verus! {

/// What the observation of a review does next.
#[derive(Debug, PartialEq, Eq)]
pub enum WatchStep {
    /// Read what the child has written.
    Poll,
    /// Terminate the child that could not be polled.
    TerminateUnpolled { failure: String },
    /// Interpret the complete lines.
    Interpret,
    /// Terminate the child whose output ended the review.
    TerminateInterpreted { error: InterpretationError },
    /// Ask whether the child has exited.
    CheckStatus,
    /// Terminate the child whose status could not be seen.
    TerminateUnseen { failure: String },
    /// Ask whether the review was cancelled.
    CheckCancel,
    /// Terminate the child of a cancelled review.
    TerminateCancelled,
    /// Read what the exited child has left.
    Drain { success: bool },
    /// Interpret the last complete lines.
    InterpretLast { success: bool },
    /// The child has exited.
    Conclude { success: bool },
}

/// The mathematical content of [`WatchStep`].
#[verifier::ext_equal]
pub enum WatchStepView {
    Poll,
    TerminateUnpolled { failure: Seq<char> },
    Interpret,
    TerminateInterpreted { error: InterpretationErrorView },
    CheckStatus,
    TerminateUnseen { failure: Seq<char> },
    CheckCancel,
    TerminateCancelled,
    Drain { success: bool },
    InterpretLast { success: bool },
    Conclude { success: bool },
}

impl View for WatchStep {
    type V = WatchStepView;

    open spec fn view(&self) -> WatchStepView {
        match *self {
            WatchStep::Poll => WatchStepView::Poll,
            WatchStep::TerminateUnpolled { failure } => WatchStepView::TerminateUnpolled {
                failure: failure@,
            },
            WatchStep::Interpret => WatchStepView::Interpret,
            WatchStep::TerminateInterpreted { error } => WatchStepView::TerminateInterpreted {
                error: error@,
            },
            WatchStep::CheckStatus => WatchStepView::CheckStatus,
            WatchStep::TerminateUnseen { failure } => WatchStepView::TerminateUnseen {
                failure: failure@,
            },
            WatchStep::CheckCancel => WatchStepView::CheckCancel,
            WatchStep::TerminateCancelled => WatchStepView::TerminateCancelled,
            WatchStep::Drain { success } => WatchStepView::Drain {
                success,
            },
            WatchStep::InterpretLast { success } => WatchStepView::InterpretLast {
                success,
            },
            WatchStep::Conclude { success } => WatchStepView::Conclude {
                success,
            },
        }
    }
}

/// Whether the child has exited, and how.
pub open spec fn status_told(status: Result<Option<bool>, String>) -> Result<
    Option<bool>,
    Seq<char>,
> {
    match status {
        Ok(status) => Ok(status),
        Err(message) => Err(message@),
    }
}

/// What became of a step.
#[derive(Debug, PartialEq, Eq)]
pub enum WatchEvent {
    Polled(Result<(), String>),
    Terminated(Result<(), String>),
    Interpreted(Result<(), InterpretationError>),
    /// Whether the child has exited, and if so, whether successfully.
    Status(Result<Option<bool>, String>),
    Cancelled { requested: bool },
    Drained(Result<(), String>),
}

/// The mathematical content of [`WatchEvent`].
#[verifier::ext_equal]
pub enum WatchEventView {
    Polled(Result<(), Seq<char>>),
    Terminated(Result<(), Seq<char>>),
    Interpreted(Result<(), InterpretationErrorView>),
    Status(Result<Option<bool>, Seq<char>>),
    Cancelled { requested: bool },
    Drained(Result<(), Seq<char>>),
}

impl View for WatchEvent {
    type V = WatchEventView;

    open spec fn view(&self) -> WatchEventView {
        match *self {
            WatchEvent::Polled(value) => WatchEventView::Polled(told(value)),
            WatchEvent::Terminated(value) => WatchEventView::Terminated(told(value)),
            WatchEvent::Interpreted(value) => WatchEventView::Interpreted(interpretation_error(value)),
            WatchEvent::Status(value) => WatchEventView::Status(status_told(value)),
            WatchEvent::Cancelled { requested } => WatchEventView::Cancelled {
                requested,
            },
            WatchEvent::Drained(value) => WatchEventView::Drained(told(value)),
        }
    }
}

/// What the observation does after a step became what the event says, and what went wrong so far.
/// An event that does not belong to the step changes nothing.
pub open spec fn watch_moved(
    step: WatchStepView,
    event: WatchEventView,
    failures: ReviewFailuresView,
) -> (WatchStepView, ReviewFailuresView) {
    match (step, event) {
        (WatchStepView::Poll, WatchEventView::Polled(polled)) => match polled {
            Ok(()) => (WatchStepView::Interpret, failures),
            Err(failure) => (WatchStepView::TerminateUnpolled { failure }, failures),
        },
        (
            WatchStepView::TerminateUnpolled { failure },
            WatchEventView::Terminated(termination),
        ) => (
            WatchStepView::Interpret,
            ReviewFailuresView {
                terminal_error: Some(terminated_after(failure, termination)),
                ..failures
            },
        ),
        (WatchStepView::Interpret, WatchEventView::Interpreted(interpreted)) => match interpreted {
            Ok(()) => (WatchStepView::CheckStatus, failures),
            Err(error) => (WatchStepView::TerminateInterpreted { error }, failures),
        },
        (
            WatchStepView::TerminateInterpreted { error },
            WatchEventView::Terminated(termination),
        ) => (
            WatchStepView::CheckStatus,
            match error {
                InterpretationErrorView::ProviderFailure(message) => ReviewFailuresView {
                    provider_failure: Some(message),
                    terminal_error: match termination {
                        Ok(()) => failures.terminal_error,
                        Err(failure) => Some(failure),
                    },
                },
                InterpretationErrorView::Ambiguous(message) => ReviewFailuresView {
                    terminal_error: Some(terminated_after(message, termination)),
                    ..failures
                },
            },
        ),
        (WatchStepView::CheckStatus, WatchEventView::Status(status)) => match status {
            Ok(Some(success)) => (WatchStepView::Drain { success }, failures),
            Ok(None) => (WatchStepView::CheckCancel, failures),
            Err(failure) => (WatchStepView::TerminateUnseen { failure }, failures),
        },
        (
            WatchStepView::TerminateUnseen { failure },
            WatchEventView::Terminated(termination),
        ) => (
            WatchStepView::CheckCancel,
            ReviewFailuresView {
                terminal_error: Some(terminated_after(failure, termination)),
                ..failures
            },
        ),
        (WatchStepView::CheckCancel, WatchEventView::Cancelled { requested }) => if requested {
            (WatchStepView::TerminateCancelled, failures)
        } else {
            (WatchStepView::Poll, failures)
        },
        (
            WatchStepView::TerminateCancelled,
            WatchEventView::Terminated(termination),
        ) => match termination {
            Ok(()) => (WatchStepView::Poll, failures),
            Err(failure) => (
                WatchStepView::Poll,
                ReviewFailuresView { terminal_error: Some(failure), ..failures },
            ),
        },
        (WatchStepView::Drain { success }, WatchEventView::Drained(drained)) => (
            WatchStepView::InterpretLast { success },
            match drained {
                Ok(()) => failures,
                Err(failure) => ReviewFailuresView { terminal_error: Some(failure), ..failures },
            },
        ),
        (
            WatchStepView::InterpretLast { success },
            WatchEventView::Interpreted(interpreted),
        ) => (
            WatchStepView::Conclude { success },
            match interpreted {
                Ok(()) => failures,
                Err(InterpretationErrorView::ProviderFailure(message)) => ReviewFailuresView {
                    provider_failure: Some(message),
                    ..failures
                },
                Err(InterpretationErrorView::Ambiguous(message)) => ReviewFailuresView {
                    terminal_error: Some(message),
                    ..failures
                },
            },
        ),
        _ => (step, failures),
    }
}

/// Moves the observation of a review.
pub fn observe(step: WatchStep, event: WatchEvent, failures: &mut ReviewFailures) -> (
next: WatchStep)
    ensures
        (next@, final(failures)@) == watch_moved(step@, event@, old(failures)@),
{
    match (step, event) {
        (WatchStep::Poll, WatchEvent::Polled(polled)) => match polled {
            Ok(()) => WatchStep::Interpret,
            Err(failure) => WatchStep::TerminateUnpolled { failure },
        },
        (WatchStep::TerminateUnpolled { failure }, WatchEvent::Terminated(termination)) => {
            failures.observation_failed(failure, &termination);
            WatchStep::Interpret
        },
        (WatchStep::Interpret, WatchEvent::Interpreted(interpreted)) => match interpreted {
            Ok(()) => WatchStep::CheckStatus,
            Err(error) => WatchStep::TerminateInterpreted { error },
        },
        (WatchStep::TerminateInterpreted { error }, WatchEvent::Terminated(termination)) => {
            failures.interpretation_failed(error, &termination);
            WatchStep::CheckStatus
        },
        (WatchStep::CheckStatus, WatchEvent::Status(status)) => match status {
            Ok(Some(success)) => WatchStep::Drain { success },
            Ok(None) => WatchStep::CheckCancel,
            Err(failure) => WatchStep::TerminateUnseen { failure },
        },
        (WatchStep::TerminateUnseen { failure }, WatchEvent::Terminated(termination)) => {
            failures.observation_failed(failure, &termination);
            WatchStep::CheckCancel
        },
        (WatchStep::CheckCancel, WatchEvent::Cancelled { requested }) => {
            if requested {
                WatchStep::TerminateCancelled
            } else {
                WatchStep::Poll
            }
        },
        (WatchStep::TerminateCancelled, WatchEvent::Terminated(termination)) => {
            match termination {
                Ok(()) => {},
                Err(failure) => {
                    failures.failed(failure);
                },
            }
            WatchStep::Poll
        },
        (WatchStep::Drain { success }, WatchEvent::Drained(drained)) => {
            match drained {
                Ok(()) => {},
                Err(failure) => {
                    failures.failed(failure);
                },
            }
            WatchStep::InterpretLast { success }
        },
        (WatchStep::InterpretLast { success }, WatchEvent::Interpreted(interpreted)) => {
            match interpreted {
                Ok(()) => {},
                Err(failure) => {
                    failures.last_interpretation_failed(failure);
                },
            }
            WatchStep::Conclude { success }
        },
        (step, _) => step,
    }
}

/// What one line does to the evidence, why it ends the review where it does, and the difficulty
/// that it tells of.
pub open spec fn line_interpreted(
    evidence: EvidenceView,
    line: Seq<char>,
    command: TargetCommandView,
) -> (EvidenceView, Result<(), InterpretationErrorView>, Option<TargetDiagnostic>) {
    match json_parsed(line) {
        Err(message) => (
            evidence,
            Err(
                InterpretationErrorView::Ambiguous(
                    PROVIDER@ + " emitted invalid stream JSON: "@ + message,
                ),
            ),
            None,
        ),
        Ok(event) => {
            let (after, outcome) = evidence_after(evidence, stream_event(event), command);
            (after, outcome, diagnostic_told(event))
        },
    }
}

/// What lines do to the evidence, up to the first that ends the review, and the difficulties that
/// they tell of.
pub open spec fn lines_interpreted(
    evidence: EvidenceView,
    lines: Seq<Seq<char>>,
    command: TargetCommandView,
) -> (EvidenceView, Result<(), InterpretationErrorView>, Seq<TargetDiagnostic>)
    decreases lines.len(),
{
    if lines.len() == 0 {
        (evidence, Ok(()), Seq::empty())
    } else {
        let (after, outcome, diagnostic) = line_interpreted(evidence, lines[0], command);
        let told = match diagnostic {
            Some(diagnostic) => seq![diagnostic],
            None => Seq::empty(),
        };
        match outcome {
            Err(error) => (after, Err(error), told),
            Ok(()) => {
                let (last, outcome, rest) = lines_interpreted(after, lines.drop_first(), command);
                (last, outcome, told + rest)
            },
        }
    }
}

/// What complete lines mean.
pub struct Interpreted {
    pub outcome: Result<(), InterpretationError>,
    pub diagnostics: Vec<TargetDiagnostic>,
}

/// Interprets lines up to the first that ends the review.
pub fn interpret_lines(
    evidence: &mut Evidence,
    lines: &Vec<String>,
    command: &TargetCommand,
) -> (interpreted: Interpreted)
    ensures
        (final(evidence)@, interpretation_error(interpreted.outcome), interpreted.diagnostics@)
            == lines_interpreted(old(evidence)@, views(lines@), command@),
{
    let ghost all = views(lines@);
    let ghost start = evidence@;
    let mut diagnostics: Vec<TargetDiagnostic> = Vec::new();
    let mut index: usize = 0;
    proof {
        assert(all.skip(0) =~= all);
        let rest = lines_interpreted(start, all, command@);
        assert(Seq::<TargetDiagnostic>::empty() + rest.2 =~= rest.2);
    }
    while index < lines.len()
        invariant
            index <= lines@.len(),
            all == views(lines@),
            start == old(evidence)@,
            ({
                let rest = lines_interpreted(evidence@, all.skip(index as int), command@);
                lines_interpreted(start, all, command@) == (
                    rest.0,
                    rest.1,
                    diagnostics@ + rest.2,
                )
            }),
        decreases lines@.len() - index,
    {
        let ghost before = evidence@;
        let ghost told_before = diagnostics@;
        proof {
            assert(all.skip(index as int)[0] == lines@[index as int]@);
            assert(all.skip(index as int).drop_first() =~= all.skip(index + 1));
        }
        let told = evidence.observe(lines[index].as_str(), command);
        let ghost one = match told.diagnostic {
            Some(diagnostic) => seq![diagnostic],
            None => Seq::empty(),
        };
        match told.diagnostic {
            Some(diagnostic) => {
                diagnostics.push(diagnostic);
            },
            None => {},
        }
        proof {
            assert(diagnostics@ =~= told_before + one);
            assert(line_interpreted(before, lines@[index as int]@, command@) == (
                evidence@,
                interpretation_error(told.outcome),
                told.diagnostic,
            ));
        }
        match told.outcome {
            Err(error) => {
                return Interpreted { outcome: Err(error), diagnostics };
            },
            Ok(()) => {},
        }
        proof {
            let rest = lines_interpreted(evidence@, all.skip(index + 1), command@);
            assert(told_before + (one + rest.2) =~= diagnostics@ + rest.2);
        }
        index = index + 1;
    }
    proof {
        assert(all.skip(index as int).len() == 0);
        assert(diagnostics@ + Seq::<TargetDiagnostic>::empty() =~= diagnostics@);
    }
    Interpreted { outcome: Ok(()), diagnostics }
}

/// What the complete lines of an output do to the evidence.
pub open spec fn output_interpreted(
    evidence: EvidenceView,
    pending: Seq<u8>,
    command: TargetCommandView,
) -> (EvidenceView, Result<(), InterpretationErrorView>, Seq<TargetDiagnostic>) {
    match lines_taken(pending) {
        Err(message) => (
            evidence,
            Err(InterpretationErrorView::Ambiguous(message)),
            Seq::empty(),
        ),
        Ok(lines) => lines_interpreted(evidence, lines, command),
    }
}

/// Takes the complete lines of an output and interprets them; what is left stays for later.
pub fn interpret(output: &mut OutputBuffer, evidence: &mut Evidence, command: &TargetCommand) -> (
interpreted: Interpreted)
    ensures
        (final(evidence)@, interpretation_error(interpreted.outcome), interpreted.diagnostics@)
            == output_interpreted(old(evidence)@, old(output).pending(), command@),
        final(output).pending() == old(output).pending().skip(
            complete_length(old(output).pending()),
        ),
        final(output).errors() == old(output).errors(),
{
    match output.take_stdout_lines() {
        Err(message) => {
            let diagnostics: Vec<TargetDiagnostic> = Vec::new();
            proof {
                assert(diagnostics@ =~= Seq::<TargetDiagnostic>::empty());
            }
            Interpreted { outcome: Err(InterpretationError::Ambiguous(message)), diagnostics }
        },
        Ok(lines) => interpret_lines(evidence, &lines, command),
    }
}

/// What went wrong in an observation is never forgotten.
pub proof fn failures_are_kept(
    step: WatchStepView,
    event: WatchEventView,
    failures: ReviewFailuresView,
)
    ensures
        failures.provider_failure is Some ==> watch_moved(step, event, failures).1.provider_failure
            is Some,
        failures.terminal_error is Some ==> watch_moved(step, event, failures).1.terminal_error
            is Some,
{
}

/// An observation ends only after the child was seen to have exited and its last output was
/// interpreted.
pub proof fn watch_ends_after_the_last_output(
    step: WatchStepView,
    event: WatchEventView,
    failures: ReviewFailuresView,
)
    requires
        !(step is Conclude),
        watch_moved(step, event, failures).0 is Conclude,
    ensures
        step is InterpretLast,
        event is Interpreted,
{
}

} // verus!
