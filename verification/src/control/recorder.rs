//! Records the observations of one live target until its conversation has ended.

use vstd::prelude::*;
use vstd::string::*;

use crate::contract::control::{
    state_failure, Conversation, ConversationView, OperatorError, OperatorErrorView,
    SessionClaimDisposition,
};
use crate::control::live::{
    end_indeterminate, indeterminate_end, ConversationEnd, ConversationEndView,
};
use crate::state::decision::answer;
use crate::text::told;

verus! {

/// What follows the record of a failure.
#[derive(Clone, Copy, Debug, PartialEq, Eq, Structural)]
pub enum RecordTail {
    FinalCheck,
    Release,
    Done,
}

/// What the recorder of a conversation does next.
#[derive(Debug, PartialEq, Eq)]
pub enum RecorderStep {
    /// Wait for an observation.
    Await,
    /// Read the conversation before the observation is recorded.
    CheckOpen,
    /// Record the observation.
    Apply,
    /// Read the conversation whose observation could not be recorded.
    Recheck { failure: OperatorError },
    /// Cancel the target.
    StopTarget { failure: OperatorError },
    /// End the conversation.
    End { end: ConversationEnd, failure: OperatorError, stopped: Result<(), String> },
    /// Read the conversation after the observation was recorded.
    CheckAfter,
    /// Read the conversation for the last time.
    FinalCheck,
    /// End the conversation whose target told nothing more.
    EndLost { end: ConversationEnd },
    /// Release the operation.
    Release,
    /// Refuse all later requests where durable state failed.
    Record { failure: OperatorError, tail: RecordTail },
    /// The recorder has ended.
    Done,
}

/// The mathematical content of [`RecorderStep`].
#[verifier::ext_equal]
pub enum RecorderStepView {
    Await,
    CheckOpen,
    Apply,
    Recheck { failure: OperatorErrorView },
    StopTarget { failure: OperatorErrorView },
    End { end: ConversationEndView, failure: OperatorErrorView, stopped: Result<(), Seq<char>> },
    CheckAfter,
    FinalCheck,
    EndLost { end: ConversationEndView },
    Release,
    Record { failure: OperatorErrorView, tail: RecordTail },
    Done,
}

impl View for RecorderStep {
    type V = RecorderStepView;

    open spec fn view(&self) -> RecorderStepView {
        match *self {
            RecorderStep::Await => RecorderStepView::Await,
            RecorderStep::CheckOpen => RecorderStepView::CheckOpen,
            RecorderStep::Apply => RecorderStepView::Apply,
            RecorderStep::Recheck { failure } => RecorderStepView::Recheck {
                failure: failure@,
            },
            RecorderStep::StopTarget { failure } => RecorderStepView::StopTarget {
                failure: failure@,
            },
            RecorderStep::End { end, failure, stopped } => RecorderStepView::End {
                end: end@,
                failure: failure@,
                stopped: told(stopped),
            },
            RecorderStep::CheckAfter => RecorderStepView::CheckAfter,
            RecorderStep::FinalCheck => RecorderStepView::FinalCheck,
            RecorderStep::EndLost { end } => RecorderStepView::EndLost {
                end: end@,
            },
            RecorderStep::Release => RecorderStepView::Release,
            RecorderStep::Record { failure, tail } => RecorderStepView::Record {
                failure: failure@,
                tail,
            },
            RecorderStep::Done => RecorderStepView::Done,
        }
    }
}

/// What became of a step.
#[derive(Debug, PartialEq, Eq)]
pub enum RecorderEvent {
    /// Whether there was an observation, or the target told nothing more.
    Observed { received: bool },
    Read(Result<Conversation, OperatorError>),
    Applied(Result<(), OperatorError>),
    Stopped(Result<(), String>),
    Ended(Result<(), OperatorError>),
    Released(Result<(), OperatorError>),
    Recorded,
}

/// The mathematical content of [`RecorderEvent`].
#[verifier::ext_equal]
pub enum RecorderEventView {
    Observed { received: bool },
    Read(Result<ConversationView, OperatorErrorView>),
    Applied(Result<(), OperatorErrorView>),
    Stopped(Result<(), Seq<char>>),
    Ended(Result<(), OperatorErrorView>),
    Released(Result<(), OperatorErrorView>),
    Recorded,
}

impl View for RecorderEvent {
    type V = RecorderEventView;

    open spec fn view(&self) -> RecorderEventView {
        match *self {
            RecorderEvent::Observed { received } => RecorderEventView::Observed {
                received,
            },
            RecorderEvent::Read(value) => RecorderEventView::Read(answer(value)),
            RecorderEvent::Applied(value) => RecorderEventView::Applied(answer(value)),
            RecorderEvent::Stopped(value) => RecorderEventView::Stopped(told(value)),
            RecorderEvent::Ended(value) => RecorderEventView::Ended(answer(value)),
            RecorderEvent::Released(value) => RecorderEventView::Released(answer(value)),
            RecorderEvent::Recorded => RecorderEventView::Recorded,
        }
    }
}

/// The failure of an observation together with what failed after it.
pub open spec fn failure_composed(
    root: OperatorErrorView,
    stop: Result<(), Seq<char>>,
    terminal: Result<(), OperatorErrorView>,
) -> OperatorErrorView {
    match (stop, terminal) {
        (Ok(()), Ok(())) => root,
        (Err(stop_error), Ok(())) => OperatorErrorView::Indeterminate(
            root.text() + "; direct live child termination failed: "@ + stop_error,
        ),
        (Ok(()), Err(terminal_error)) => state_failure(
            root.text() + "; durable indeterminate transition failed: "@ + terminal_error.text(),
        ),
        (Err(stop_error), Err(terminal_error)) => state_failure(
            root.text() + "; direct live child termination failed: "@ + stop_error
                + "; durable indeterminate transition failed: "@ + terminal_error.text(),
        ),
    }
}

/// Composes the failure of an observation with what failed after it.
pub fn compose_observation_failure(
    root: OperatorError,
    stop: Result<(), String>,
    terminal: Result<(), OperatorError>,
) -> (failure: OperatorError)
    ensures
        failure@ == failure_composed(root@, told(stop), answer(terminal)),
{
    match (stop, terminal) {
        (Ok(()), Ok(())) => root,
        (Err(stop_error), Ok(())) => {
            let mut message = root.to_text();
            message.append("; direct live child termination failed: ");
            message.append(stop_error.as_str());
            OperatorError::Indeterminate(message)
        },
        (Ok(()), Err(terminal_error)) => {
            let mut message = root.to_text();
            let terminal_text = terminal_error.to_text();
            message.append("; durable indeterminate transition failed: ");
            message.append(terminal_text.as_str());
            OperatorError::State(message)
        },
        (Err(stop_error), Err(terminal_error)) => {
            let mut message = root.to_text();
            let terminal_text = terminal_error.to_text();
            message.append("; direct live child termination failed: ");
            message.append(stop_error.as_str());
            message.append("; durable indeterminate transition failed: ");
            message.append(terminal_text.as_str());
            OperatorError::State(message)
        },
    }
}

/// The step that follows the record of a failure.
pub open spec fn after_record(tail: RecordTail) -> RecorderStepView {
    match tail {
        RecordTail::FinalCheck => RecorderStepView::FinalCheck,
        RecordTail::Release => RecorderStepView::Release,
        RecordTail::Done => RecorderStepView::Done,
    }
}

/// What the recorder does after a step became what the event says. An event that does not belong to
/// the step changes nothing.
pub open spec fn recorder_moved(step: RecorderStepView, event: RecorderEventView) -> RecorderStepView {
    match (step, event) {
        (RecorderStepView::Await, RecorderEventView::Observed { received }) => if received {
            RecorderStepView::CheckOpen
        } else {
            RecorderStepView::FinalCheck
        },
        (RecorderStepView::CheckOpen, RecorderEventView::Read(read)) => match read {
            Ok(conversation) => if conversation.state.is_terminal() {
                RecorderStepView::FinalCheck
            } else {
                RecorderStepView::Apply
            },
            Err(failure) => RecorderStepView::Record { failure, tail: RecordTail::FinalCheck },
        },
        (RecorderStepView::Apply, RecorderEventView::Applied(applied)) => match applied {
            Ok(()) => RecorderStepView::CheckAfter,
            Err(failure) => RecorderStepView::Recheck { failure },
        },
        (RecorderStepView::Recheck { failure }, RecorderEventView::Read(read)) => match read {
            Ok(conversation) => if conversation.state.is_terminal() {
                RecorderStepView::FinalCheck
            } else {
                RecorderStepView::StopTarget { failure }
            },
            Err(error) => RecorderStepView::Record {
                failure: error,
                tail: RecordTail::FinalCheck,
            },
        },
        (
            RecorderStepView::StopTarget { failure },
            RecorderEventView::Stopped(stopped),
        ) => RecorderStepView::End {
            end: indeterminate_end(
                failure.text(),
                SessionClaimDisposition::RetainUnclassifiedWriter,
            ),
            failure,
            stopped,
        },
        (
            RecorderStepView::End { end: _, failure, stopped },
            RecorderEventView::Ended(ended),
        ) => RecorderStepView::Record {
            failure: failure_composed(failure, stopped, ended),
            tail: RecordTail::FinalCheck,
        },
        (RecorderStepView::CheckAfter, RecorderEventView::Read(read)) => match read {
            Ok(conversation) => if conversation.state.is_terminal() {
                RecorderStepView::FinalCheck
            } else {
                RecorderStepView::Await
            },
            Err(failure) => RecorderStepView::Record { failure, tail: RecordTail::FinalCheck },
        },
        (RecorderStepView::FinalCheck, RecorderEventView::Read(read)) => match read {
            Ok(conversation) => if conversation.state.is_terminal() {
                RecorderStepView::Release
            } else {
                RecorderStepView::EndLost {
                    end: indeterminate_end(
                        "live target observation channel ended without a terminal outcome"@,
                        SessionClaimDisposition::RetainUnclassifiedWriter,
                    ),
                }
            },
            Err(failure) => RecorderStepView::Record { failure, tail: RecordTail::Release },
        },
        (
            RecorderStepView::EndLost { end: _ },
            RecorderEventView::Ended(ended),
        ) => match ended {
            Ok(()) => RecorderStepView::Release,
            Err(failure) => RecorderStepView::Record { failure, tail: RecordTail::Release },
        },
        (RecorderStepView::Release, RecorderEventView::Released(released)) => match released {
            Ok(()) => RecorderStepView::Done,
            Err(failure) => RecorderStepView::Record { failure, tail: RecordTail::Done },
        },
        (
            RecorderStepView::Record { failure: _, tail },
            RecorderEventView::Recorded,
        ) => after_record(tail),
        _ => step,
    }
}

/// Moves the recorder of a conversation.
pub fn observe(step: RecorderStep, event: RecorderEvent) -> (next: RecorderStep)
    ensures
        next@ == recorder_moved(step@, event@),
{
    match (step, event) {
        (RecorderStep::Await, RecorderEvent::Observed { received }) => {
            if received {
                RecorderStep::CheckOpen
            } else {
                RecorderStep::FinalCheck
            }
        },
        (RecorderStep::CheckOpen, RecorderEvent::Read(read)) => match read {
            Ok(conversation) => {
                if conversation.state.terminal() {
                    RecorderStep::FinalCheck
                } else {
                    RecorderStep::Apply
                }
            },
            Err(failure) => RecorderStep::Record { failure, tail: RecordTail::FinalCheck },
        },
        (RecorderStep::Apply, RecorderEvent::Applied(applied)) => match applied {
            Ok(()) => RecorderStep::CheckAfter,
            Err(failure) => RecorderStep::Recheck { failure },
        },
        (RecorderStep::Recheck { failure }, RecorderEvent::Read(read)) => match read {
            Ok(conversation) => {
                if conversation.state.terminal() {
                    RecorderStep::FinalCheck
                } else {
                    RecorderStep::StopTarget { failure }
                }
            },
            Err(error) => RecorderStep::Record { failure: error, tail: RecordTail::FinalCheck },
        },
        (RecorderStep::StopTarget { failure }, RecorderEvent::Stopped(stopped)) => {
            let end = end_indeterminate(
                failure.to_text(),
                SessionClaimDisposition::RetainUnclassifiedWriter,
            );
            RecorderStep::End { end, failure, stopped }
        },
        (
            RecorderStep::End { end: _, failure, stopped },
            RecorderEvent::Ended(ended),
        ) => RecorderStep::Record {
            failure: compose_observation_failure(failure, stopped, ended),
            tail: RecordTail::FinalCheck,
        },
        (RecorderStep::CheckAfter, RecorderEvent::Read(read)) => match read {
            Ok(conversation) => {
                if conversation.state.terminal() {
                    RecorderStep::FinalCheck
                } else {
                    RecorderStep::Await
                }
            },
            Err(failure) => RecorderStep::Record { failure, tail: RecordTail::FinalCheck },
        },
        (RecorderStep::FinalCheck, RecorderEvent::Read(read)) => match read {
            Ok(conversation) => {
                if conversation.state.terminal() {
                    RecorderStep::Release
                } else {
                    RecorderStep::EndLost {
                        end: end_indeterminate(
                            "live target observation channel ended without a terminal outcome".to_owned(),
                            SessionClaimDisposition::RetainUnclassifiedWriter,
                        ),
                    }
                }
            },
            Err(failure) => RecorderStep::Record { failure, tail: RecordTail::Release },
        },
        (RecorderStep::EndLost { end: _ }, RecorderEvent::Ended(ended)) => match ended {
            Ok(()) => RecorderStep::Release,
            Err(failure) => RecorderStep::Record { failure, tail: RecordTail::Release },
        },
        (RecorderStep::Release, RecorderEvent::Released(released)) => match released {
            Ok(()) => RecorderStep::Done,
            Err(failure) => RecorderStep::Record { failure, tail: RecordTail::Done },
        },
        (RecorderStep::Record { failure: _, tail }, RecorderEvent::Recorded) => match tail {
            RecordTail::FinalCheck => RecorderStep::FinalCheck,
            RecordTail::Release => RecorderStep::Release,
            RecordTail::Done => RecorderStep::Done,
        },
        (step, _) => step,
    }
}

/// An observation is recorded only of a conversation that was read as not ended.
pub proof fn only_open_conversations_are_recorded(step: RecorderStepView, event: RecorderEventView)
    requires
        !(step is Apply),
        recorder_moved(step, event) is Apply,
    ensures
        step is CheckOpen,
        event matches RecorderEventView::Read(read) && (read matches Ok(conversation)
            && !conversation.state.is_terminal()),
{
}

/// Whatever the recorder ends by itself keeps its session claimed: the writer may still run.
pub proof fn recorder_keeps_sessions_claimed(step: RecorderStepView, event: RecorderEventView)
    requires
        !(step is End) && !(step is EndLost),
    ensures
        recorder_moved(step, event) matches RecorderStepView::End { end, failure: _, stopped: _ }
            ==> end.disposition is RetainUnclassifiedWriter && end.state is Indeterminate,
        recorder_moved(step, event) matches RecorderStepView::EndLost { end } ==> end.disposition
            is RetainUnclassifiedWriter && end.state is Indeterminate,
{
}

/// The recorder closes its gate only after the conversation was read as ended, after it tried to
/// end it, or where durable state failed.
pub proof fn recorder_leaves_nothing_open(step: RecorderStepView, event: RecorderEventView)
    requires
        !(step is Release),
        recorder_moved(step, event) is Release,
    ensures
        (step is FinalCheck && (event matches RecorderEventView::Read(read) && (read matches Ok(
            conversation,
        ) && conversation.state.is_terminal()))) || step is EndLost || (step
            matches RecorderStepView::Record { failure: _, tail } && tail is Release),
{
}

} // verus!
