//! Orders the start, the turns, and the stop of one live conversation with its target.

use vstd::prelude::*;
use vstd::string::*;

use crate::contract::control::{
    state_failure, ConversationSnapshot, ConversationSnapshotView, ConversationState,
    ConversationStopMode, OperatorError, OperatorErrorView, SessionClaimDisposition,
    TerminalOutcome, TerminalOutcomeView,
};
use crate::contract::target::{TargetLiveStartError, TargetLiveStartErrorView, TargetLiveStop};
use crate::state::decision::answer;
use crate::text::{joined, joined3, optional, told};

verus! {

/// How a conversation is ended.
#[derive(Debug, PartialEq, Eq)]
pub struct ConversationEnd {
    pub state: ConversationState,
    pub outcome: TerminalOutcome,
    pub disposition: SessionClaimDisposition,
}

/// The mathematical content of [`ConversationEnd`].
#[verifier::ext_equal]
pub struct ConversationEndView {
    pub state: ConversationState,
    pub outcome: TerminalOutcomeView,
    pub disposition: SessionClaimDisposition,
}

impl View for ConversationEnd {
    type V = ConversationEndView;

    open spec fn view(&self) -> ConversationEndView {
        ConversationEndView {
            state: self.state,
            outcome: self.outcome@,
            disposition: self.disposition,
        }
    }
}

impl Clone for ConversationEnd {
    fn clone(&self) -> (copy: Self)
        ensures
            copy@ == self@,
    {
        ConversationEnd {
            state: self.state,
            outcome: self.outcome.clone(),
            disposition: self.disposition,
        }
    }
}

/// What the start of a conversation does next.
#[derive(Debug, PartialEq, Eq)]
pub enum LiveStep {
    /// Register the operation so that it can be cancelled.
    OpenGate,
    /// End the conversation that has no gate.
    EndUnopened { end: ConversationEnd, refusal: OperatorError },
    /// Start the target.
    StartTarget,
    /// Record that the operation runs.
    MarkRunning,
    /// Start the thread that records observations.
    SpawnObserver,
    /// Permit the target to go on.
    Grant,
    /// Cancel the target that cannot be permitted to go on.
    StopUngranted,
    /// Cancel the target that was started.
    StopTarget { refusal: OperatorError },
    /// End the conversation that no observer records.
    Finish { end: ConversationEnd, stopped: bool },
    /// Release the operation.
    Release { clean: bool },
    /// Read the conversation.
    Snapshot,
    /// The request is answered.
    Done(Result<ConversationSnapshot, OperatorError>),
}

/// The mathematical content of [`LiveStep`].
#[verifier::ext_equal]
pub enum LiveStepView {
    OpenGate,
    EndUnopened { end: ConversationEndView, refusal: OperatorErrorView },
    StartTarget,
    MarkRunning,
    SpawnObserver,
    Grant,
    StopUngranted,
    StopTarget { refusal: OperatorErrorView },
    Finish { end: ConversationEndView, stopped: bool },
    Release { clean: bool },
    Snapshot,
    Done(Result<ConversationSnapshotView, OperatorErrorView>),
}

impl View for LiveStep {
    type V = LiveStepView;

    open spec fn view(&self) -> LiveStepView {
        match *self {
            LiveStep::OpenGate => LiveStepView::OpenGate,
            LiveStep::EndUnopened { end, refusal } => LiveStepView::EndUnopened {
                end: end@,
                refusal: refusal@,
            },
            LiveStep::StartTarget => LiveStepView::StartTarget,
            LiveStep::MarkRunning => LiveStepView::MarkRunning,
            LiveStep::SpawnObserver => LiveStepView::SpawnObserver,
            LiveStep::Grant => LiveStepView::Grant,
            LiveStep::StopUngranted => LiveStepView::StopUngranted,
            LiveStep::StopTarget { refusal } => LiveStepView::StopTarget {
                refusal: refusal@,
            },
            LiveStep::Finish { end, stopped } => LiveStepView::Finish {
                end: end@,
                stopped,
            },
            LiveStep::Release { clean } => LiveStepView::Release {
                clean,
            },
            LiveStep::Snapshot => LiveStepView::Snapshot,
            LiveStep::Done(value) => LiveStepView::Done(answer(value)),
        }
    }
}

/// What became of a step.
#[derive(Debug, PartialEq, Eq)]
pub enum LiveEvent {
    GateOpened(Result<(), OperatorError>),
    Ended(Result<(), OperatorError>),
    /// Whether the target started.
    TargetStarted { refusal: Option<TargetLiveStartError> },
    MarkedRunning(Result<(), OperatorError>),
    ObserverSpawned(Result<(), String>),
    Told { received: bool },
    Stopped(Result<(), String>),
    /// Whether the operation was released, with what the three parts of the cleanup reported.
    Released { released: bool, terminal_report: String, release_report: String, termination_report: String },
    Read(Result<ConversationSnapshot, OperatorError>),
}

/// The mathematical content of [`LiveEvent`].
#[verifier::ext_equal]
pub enum LiveEventView {
    GateOpened(Result<(), OperatorErrorView>),
    Ended(Result<(), OperatorErrorView>),
    TargetStarted { refusal: Option<TargetLiveStartErrorView> },
    MarkedRunning(Result<(), OperatorErrorView>),
    ObserverSpawned(Result<(), Seq<char>>),
    Told { received: bool },
    Stopped(Result<(), Seq<char>>),
    Released { released: bool, terminal_report: Seq<char>, release_report: Seq<char>, termination_report: Seq<char> },
    Read(Result<ConversationSnapshotView, OperatorErrorView>),
}

impl View for LiveEvent {
    type V = LiveEventView;

    open spec fn view(&self) -> LiveEventView {
        match *self {
            LiveEvent::GateOpened(value) => LiveEventView::GateOpened(answer(value)),
            LiveEvent::Ended(value) => LiveEventView::Ended(answer(value)),
            LiveEvent::TargetStarted { refusal } => LiveEventView::TargetStarted {
                refusal: optional(refusal),
            },
            LiveEvent::MarkedRunning(value) => LiveEventView::MarkedRunning(answer(value)),
            LiveEvent::ObserverSpawned(value) => LiveEventView::ObserverSpawned(told(value)),
            LiveEvent::Told { received } => LiveEventView::Told {
                received,
            },
            LiveEvent::Stopped(value) => LiveEventView::Stopped(told(value)),
            LiveEvent::Released { released, terminal_report, release_report, termination_report } => LiveEventView::Released {
                released,
                terminal_report: terminal_report@,
                release_report: release_report@,
                termination_report: termination_report@,
            },
            LiveEvent::Read(value) => LiveEventView::Read(answer(value)),
        }
    }
}

/// What the delivery of a turn does next.
#[derive(Debug, PartialEq, Eq)]
pub enum SendStep {
    /// Give the turn to the target.
    Deliver,
    /// Read the conversation whose target did not take the turn.
    ReadRefused { failure: String },
    /// Close the conversation for good.
    CloseRefused { failure: String },
    /// Cancel the target.
    StopRefused { failure: String },
    /// Read the conversation.
    Snapshot,
    /// The request is answered.
    Done(Result<ConversationSnapshot, OperatorError>),
}

/// The mathematical content of [`SendStep`].
#[verifier::ext_equal]
pub enum SendStepView {
    Deliver,
    ReadRefused { failure: Seq<char> },
    CloseRefused { failure: Seq<char> },
    StopRefused { failure: Seq<char> },
    Snapshot,
    Done(Result<ConversationSnapshotView, OperatorErrorView>),
}

impl View for SendStep {
    type V = SendStepView;

    open spec fn view(&self) -> SendStepView {
        match *self {
            SendStep::Deliver => SendStepView::Deliver,
            SendStep::ReadRefused { failure } => SendStepView::ReadRefused {
                failure: failure@,
            },
            SendStep::CloseRefused { failure } => SendStepView::CloseRefused {
                failure: failure@,
            },
            SendStep::StopRefused { failure } => SendStepView::StopRefused {
                failure: failure@,
            },
            SendStep::Snapshot => SendStepView::Snapshot,
            SendStep::Done(value) => SendStepView::Done(answer(value)),
        }
    }
}

/// What became of a step.
#[derive(Debug, PartialEq, Eq)]
pub enum SendEvent {
    Delivered(Result<(), String>),
    Read(Result<ConversationSnapshot, OperatorError>),
    Closed(Result<(), OperatorError>),
    Stopped(Result<(), String>),
}

/// The mathematical content of [`SendEvent`].
#[verifier::ext_equal]
pub enum SendEventView {
    Delivered(Result<(), Seq<char>>),
    Read(Result<ConversationSnapshotView, OperatorErrorView>),
    Closed(Result<(), OperatorErrorView>),
    Stopped(Result<(), Seq<char>>),
}

impl View for SendEvent {
    type V = SendEventView;

    open spec fn view(&self) -> SendEventView {
        match *self {
            SendEvent::Delivered(value) => SendEventView::Delivered(told(value)),
            SendEvent::Read(value) => SendEventView::Read(answer(value)),
            SendEvent::Closed(value) => SendEventView::Closed(answer(value)),
            SendEvent::Stopped(value) => SendEventView::Stopped(told(value)),
        }
    }
}

/// What a stop does next.
#[derive(Debug, PartialEq, Eq)]
pub enum StopStep {
    /// Ask the target to stop.
    Request(TargetLiveStop),
    /// Read the conversation whose target could not be asked.
    ReadRefused { failure: String },
    /// Read the conversation.
    Snapshot,
    /// The request is answered.
    Done(Result<ConversationSnapshot, OperatorError>),
}

/// The mathematical content of [`StopStep`].
#[verifier::ext_equal]
pub enum StopStepView {
    Request(TargetLiveStop),
    ReadRefused { failure: Seq<char> },
    Snapshot,
    Done(Result<ConversationSnapshotView, OperatorErrorView>),
}

impl View for StopStep {
    type V = StopStepView;

    open spec fn view(&self) -> StopStepView {
        match *self {
            StopStep::Request(value) => StopStepView::Request(value),
            StopStep::ReadRefused { failure } => StopStepView::ReadRefused {
                failure: failure@,
            },
            StopStep::Snapshot => StopStepView::Snapshot,
            StopStep::Done(value) => StopStepView::Done(answer(value)),
        }
    }
}

/// What became of a step.
#[derive(Debug, PartialEq, Eq)]
pub enum StopEvent {
    Requested(Result<(), String>),
    Read(Result<ConversationSnapshot, OperatorError>),
}

/// The mathematical content of [`StopEvent`].
#[verifier::ext_equal]
pub enum StopEventView {
    Requested(Result<(), Seq<char>>),
    Read(Result<ConversationSnapshotView, OperatorErrorView>),
}

impl View for StopEvent {
    type V = StopEventView;

    open spec fn view(&self) -> StopEventView {
        match *self {
            StopEvent::Requested(value) => StopEventView::Requested(told(value)),
            StopEvent::Read(value) => StopEventView::Read(answer(value)),
        }
    }
}

/// An end of which nothing is known but the words.
pub open spec fn indeterminate_end(
    message: Seq<char>,
    disposition: SessionClaimDisposition,
) -> ConversationEndView {
    ConversationEndView {
        state: ConversationState::Indeterminate,
        outcome: TerminalOutcomeView::Indeterminate(message),
        disposition,
    }
}

/// Makes an end of which nothing is known but the words.
pub(crate) fn end_indeterminate(message: String, disposition: SessionClaimDisposition) -> (
end: ConversationEnd)
    ensures
        end@ == indeterminate_end(message@, disposition),
{
    ConversationEnd {
        state: ConversationState::Indeterminate,
        outcome: TerminalOutcome::Indeterminate(message),
        disposition,
    }
}

/// How a conversation ends whose target did not start: its session stays claimed only where the
/// exit of the direct child was not proven.
pub open spec fn unstarted_end(error: TargetLiveStartErrorView) -> ConversationEndView {
    match error {
        TargetLiveStartErrorView::NoWriter(message)
        | TargetLiveStartErrorView::CleanupProvenExited(message) => ConversationEndView {
            state: ConversationState::Failed,
            outcome: TerminalOutcomeView::Failed("live target could not start: "@ + message),
            disposition: SessionClaimDisposition::ReleaseProvenWriter,
        },
        TargetLiveStartErrorView::CleanupUnproven(message) => indeterminate_end(
            "live target startup did not prove direct-child exit: "@ + message,
            SessionClaimDisposition::RetainUnclassifiedWriter,
        ),
    }
}

/// Decides how a conversation ends whose target did not start.
pub fn fail_before_live_worker(error: TargetLiveStartError) -> (end: ConversationEnd)
    ensures
        end@ == unstarted_end(error@),
{
    match error {
        TargetLiveStartError::NoWriter(message)
        | TargetLiveStartError::CleanupProvenExited(message) => ConversationEnd {
            state: ConversationState::Failed,
            outcome: TerminalOutcome::Failed(
                joined("live target could not start: ", message.as_str()),
            ),
            disposition: SessionClaimDisposition::ReleaseProvenWriter,
        },
        TargetLiveStartError::CleanupUnproven(message) => end_indeterminate(
            joined("live target startup did not prove direct-child exit: ", message.as_str()),
            SessionClaimDisposition::RetainUnclassifiedWriter,
        ),
    }
}

/// What is answered where the target cannot be permitted to go on.
pub open spec fn ungranted() -> OperatorErrorView {
    OperatorErrorView::Indeterminate(
        "live target stopped before Control granted durable Running permission"@,
    )
}

/// A failure whose cleanup failed too.
pub open spec fn termination_failed(failure: Seq<char>, termination: Seq<char>) -> OperatorErrorView {
    OperatorErrorView::Indeterminate(
        failure + "; direct live child termination failed: "@ + termination,
    )
}

/// Tells a failure whose cleanup failed too.
fn with_termination(failure: &str, termination: &str) -> (error: OperatorError)
    ensures
        error@ == termination_failed(failure@, termination@),
{
    OperatorError::Indeterminate(
        joined3(failure, "; direct live child termination failed: ", termination),
    )
}

/// What the start of a conversation does after a step became what the event says. An event that
/// does not belong to the step changes nothing.
pub open spec fn live_moved(step: LiveStepView, event: LiveEventView) -> LiveStepView {
    match (step, event) {
        (LiveStepView::OpenGate, LiveEventView::GateOpened(opened)) => match opened {
            Ok(()) => LiveStepView::StartTarget,
            Err(refusal) => LiveStepView::EndUnopened {
                end: indeterminate_end(
                    refusal.text(),
                    SessionClaimDisposition::ReleaseProvenWriter,
                ),
                refusal,
            },
        },
        (LiveStepView::EndUnopened { end: _, refusal }, LiveEventView::Ended(ended)) => match ended {
            Ok(()) => LiveStepView::Done(Err(refusal)),
            Err(error) => LiveStepView::Done(Err(error)),
        },
        (LiveStepView::StartTarget, LiveEventView::TargetStarted { refusal }) => match refusal {
            None => LiveStepView::MarkRunning,
            Some(error) => LiveStepView::Finish { end: unstarted_end(error), stopped: true },
        },
        (LiveStepView::MarkRunning, LiveEventView::MarkedRunning(marked)) => match marked {
            Ok(()) => LiveStepView::SpawnObserver,
            Err(refusal) => LiveStepView::StopTarget { refusal },
        },
        (LiveStepView::SpawnObserver, LiveEventView::ObserverSpawned(spawned)) => match spawned {
            Ok(()) => LiveStepView::Grant,
            Err(message) => LiveStepView::StopTarget {
                refusal: state_failure(
                    "live observation worker could not start: "@ + message,
                ),
            },
        },
        (LiveStepView::Grant, LiveEventView::Told { received }) => if received {
            LiveStepView::Snapshot
        } else {
            LiveStepView::StopUngranted
        },
        (LiveStepView::StopUngranted, LiveEventView::Stopped(stopped)) => match stopped {
            Ok(()) => LiveStepView::Done(Err(ungranted())),
            Err(termination) => LiveStepView::Done(
                Err(termination_failed(ungranted().text(), termination)),
            ),
        },
        (
            LiveStepView::StopTarget { refusal },
            LiveEventView::Stopped(stopped),
        ) => LiveStepView::Finish {
            end: indeterminate_end(
                refusal.text(),
                SessionClaimDisposition::RetainUnclassifiedWriter,
            ),
            stopped: stopped is Ok,
        },
        (
            LiveStepView::Finish { end: _, stopped },
            LiveEventView::Ended(ended),
        ) => LiveStepView::Release { clean: stopped && ended is Ok },
        (
            LiveStepView::Release { clean },
            LiveEventView::Released {
                released,
                terminal_report,
                release_report,
                termination_report,
            },
        ) => if clean && released {
            LiveStepView::Snapshot
        } else {
            LiveStepView::Done(
                Err(
                    state_failure(
                        "live startup cleanup: terminal="@ + terminal_report + "; runtime_release="@
                            + release_report + "; direct_child_termination="@ + termination_report,
                    ),
                ),
            )
        },
        (LiveStepView::Snapshot, LiveEventView::Read(read)) => LiveStepView::Done(read),
        _ => step,
    }
}

/// Moves the start of a conversation.
pub fn start(step: LiveStep, event: LiveEvent) -> (next: LiveStep)
    ensures
        next@ == live_moved(step@, event@),
{
    match (step, event) {
        (LiveStep::OpenGate, LiveEvent::GateOpened(opened)) => match opened {
            Ok(()) => LiveStep::StartTarget,
            Err(refusal) => {
                let end = end_indeterminate(
                    refusal.to_text(),
                    SessionClaimDisposition::ReleaseProvenWriter,
                );
                LiveStep::EndUnopened { end, refusal }
            },
        },
        (LiveStep::EndUnopened { end: _, refusal }, LiveEvent::Ended(ended)) => match ended {
            Ok(()) => LiveStep::Done(Err(refusal)),
            Err(error) => LiveStep::Done(Err(error)),
        },
        (LiveStep::StartTarget, LiveEvent::TargetStarted { refusal }) => match refusal {
            None => LiveStep::MarkRunning,
            Some(error) => LiveStep::Finish { end: fail_before_live_worker(error), stopped: true },
        },
        (LiveStep::MarkRunning, LiveEvent::MarkedRunning(marked)) => match marked {
            Ok(()) => LiveStep::SpawnObserver,
            Err(refusal) => LiveStep::StopTarget { refusal },
        },
        (LiveStep::SpawnObserver, LiveEvent::ObserverSpawned(spawned)) => match spawned {
            Ok(()) => LiveStep::Grant,
            Err(message) => LiveStep::StopTarget {
                refusal: OperatorError::State(
                    joined("live observation worker could not start: ", message.as_str()),
                ),
            },
        },
        (LiveStep::Grant, LiveEvent::Told { received }) => {
            if received {
                LiveStep::Snapshot
            } else {
                LiveStep::StopUngranted
            }
        },
        (LiveStep::StopUngranted, LiveEvent::Stopped(stopped)) => {
            let error = OperatorError::Indeterminate(
                "live target stopped before Control granted durable Running permission".to_owned(),
            );
            match stopped {
                Ok(()) => LiveStep::Done(Err(error)),
                Err(termination) => {
                    let failure = error.to_text();
                    LiveStep::Done(Err(with_termination(failure.as_str(), termination.as_str())))
                },
            }
        },
        (LiveStep::StopTarget { refusal }, LiveEvent::Stopped(stopped)) => {
            let stopped = match stopped {
                Ok(()) => true,
                Err(_) => false,
            };
            LiveStep::Finish {
                end: end_indeterminate(
                    refusal.to_text(),
                    SessionClaimDisposition::RetainUnclassifiedWriter,
                ),
                stopped,
            }
        },
        (LiveStep::Finish { end: _, stopped }, LiveEvent::Ended(ended)) => {
            let ended = match ended {
                Ok(()) => true,
                Err(_) => false,
            };
            LiveStep::Release { clean: stopped && ended }
        },
        (
            LiveStep::Release { clean },
            LiveEvent::Released {
                released,
                terminal_report,
                release_report,
                termination_report,
            },
        ) => {
            if clean && released {
                LiveStep::Snapshot
            } else {
                let mut message = joined(
                    "live startup cleanup: terminal=",
                    terminal_report.as_str(),
                );
                message.append("; runtime_release=");
                message.append(release_report.as_str());
                message.append("; direct_child_termination=");
                message.append(termination_report.as_str());
                LiveStep::Done(Err(OperatorError::State(message)))
            }
        },
        (LiveStep::Snapshot, LiveEvent::Read(read)) => LiveStep::Done(read),
        (step, _) => step,
    }
}

/// Whether a conversation whose turn was not taken is ending anyway.
pub open spec fn ending_anyway(snapshot: ConversationSnapshotView) -> bool {
    snapshot.conversation.state.is_terminal() || snapshot.conversation.close_mode == Some(
        ConversationStopMode::Cancel,
    )
}

/// What the delivery of a turn does after a step became what the event says. An event that does not
/// belong to the step changes nothing.
pub open spec fn send_moved(step: SendStepView, event: SendEventView) -> SendStepView {
    match (step, event) {
        (SendStepView::Deliver, SendEventView::Delivered(delivered)) => match delivered {
            Ok(()) => SendStepView::Snapshot,
            Err(failure) => SendStepView::ReadRefused { failure },
        },
        (SendStepView::ReadRefused { failure }, SendEventView::Read(read)) => match read {
            Err(error) => SendStepView::Done(Err(error)),
            Ok(snapshot) => if ending_anyway(snapshot) {
                SendStepView::Done(Ok(snapshot))
            } else {
                SendStepView::CloseRefused { failure }
            },
        },
        (SendStepView::CloseRefused { failure }, SendEventView::Closed(closed)) => match closed {
            Ok(()) => SendStepView::StopRefused { failure },
            Err(error) => SendStepView::Done(Err(error)),
        },
        (SendStepView::StopRefused { failure }, SendEventView::Stopped(stopped)) => match stopped {
            Ok(()) => SendStepView::Done(Err(OperatorErrorView::Indeterminate(failure))),
            Err(termination) => SendStepView::Done(Err(termination_failed(failure, termination))),
        },
        (SendStepView::Snapshot, SendEventView::Read(read)) => SendStepView::Done(read),
        _ => step,
    }
}

/// Moves the delivery of a turn.
pub fn send(step: SendStep, event: SendEvent) -> (next: SendStep)
    ensures
        next@ == send_moved(step@, event@),
{
    match (step, event) {
        (SendStep::Deliver, SendEvent::Delivered(delivered)) => match delivered {
            Ok(()) => SendStep::Snapshot,
            Err(failure) => SendStep::ReadRefused { failure },
        },
        (SendStep::ReadRefused { failure }, SendEvent::Read(read)) => match read {
            Err(error) => SendStep::Done(Err(error)),
            Ok(snapshot) => {
                let cancelled = match snapshot.conversation.close_mode {
                    Some(mode) => mode == ConversationStopMode::Cancel,
                    None => false,
                };
                if snapshot.conversation.state.terminal() || cancelled {
                    SendStep::Done(Ok(snapshot))
                } else {
                    SendStep::CloseRefused { failure }
                }
            },
        },
        (SendStep::CloseRefused { failure }, SendEvent::Closed(closed)) => match closed {
            Ok(()) => SendStep::StopRefused { failure },
            Err(error) => SendStep::Done(Err(error)),
        },
        (SendStep::StopRefused { failure }, SendEvent::Stopped(stopped)) => match stopped {
            Ok(()) => SendStep::Done(Err(OperatorError::Indeterminate(failure))),
            Err(termination) => SendStep::Done(
                Err(with_termination(failure.as_str(), termination.as_str())),
            ),
        },
        (SendStep::Snapshot, SendEvent::Read(read)) => SendStep::Done(read),
        (step, _) => step,
    }
}

/// What a stop does after a step became what the event says. An event that does not belong to the
/// step changes nothing.
pub open spec fn stop_moved(step: StopStepView, event: StopEventView) -> StopStepView {
    match (step, event) {
        (StopStepView::Request(_), StopEventView::Requested(requested)) => match requested {
            Ok(()) => StopStepView::Snapshot,
            Err(failure) => StopStepView::ReadRefused { failure },
        },
        (StopStepView::ReadRefused { failure }, StopEventView::Read(read)) => match read {
            Err(error) => StopStepView::Done(Err(error)),
            Ok(snapshot) => if snapshot.conversation.state.is_terminal() {
                StopStepView::Done(Ok(snapshot))
            } else {
                StopStepView::Done(
                    Err(
                        OperatorErrorView::Indeterminate(
                            "live target stop request could not be observed: "@ + failure,
                        ),
                    ),
                )
            },
        },
        (StopStepView::Snapshot, StopEventView::Read(read)) => StopStepView::Done(read),
        _ => step,
    }
}

/// Moves a stop.
pub fn stop(step: StopStep, event: StopEvent) -> (next: StopStep)
    ensures
        next@ == stop_moved(step@, event@),
{
    match (step, event) {
        (StopStep::Request(_), StopEvent::Requested(requested)) => match requested {
            Ok(()) => StopStep::Snapshot,
            Err(failure) => StopStep::ReadRefused { failure },
        },
        (StopStep::ReadRefused { failure }, StopEvent::Read(read)) => match read {
            Err(error) => StopStep::Done(Err(error)),
            Ok(snapshot) => {
                if snapshot.conversation.state.terminal() {
                    StopStep::Done(Ok(snapshot))
                } else {
                    StopStep::Done(
                        Err(
                            OperatorError::Indeterminate(
                                joined(
                                    "live target stop request could not be observed: ",
                                    failure.as_str(),
                                ),
                            ),
                        ),
                    )
                }
            },
        },
        (StopStep::Snapshot, StopEvent::Read(read)) => StopStep::Done(read),
        (step, _) => step,
    }
}

/// A live target is permitted to go on only once its operation is durably running and its
/// observations are being recorded.
pub proof fn permission_follows_running_and_observer(
    before: LiveStepView,
    first: LiveEventView,
    step: LiveStepView,
    event: LiveEventView,
)
    requires
        !(before is SpawnObserver),
        live_moved(before, first) is SpawnObserver,
        !(step is Grant),
        live_moved(step, event) is Grant,
    ensures
        before is MarkRunning && (first matches LiveEventView::MarkedRunning(marked) && marked
            is Ok),
        step is SpawnObserver && (event matches LiveEventView::ObserverSpawned(spawned) && spawned
            is Ok),
{
}

/// A start that failed after its target had started keeps the session claimed: the writer may still
/// run.
pub proof fn started_target_keeps_its_session(step: LiveStepView, event: LiveEventView)
    requires
        step is StopTarget,
        event is Stopped,
    ensures
        live_moved(step, event) matches LiveStepView::Finish { end, stopped: _ }
            && end.disposition is RetainUnclassifiedWriter,
{
}

/// A target that did not start frees its session exactly where no writer is left.
pub proof fn unstarted_target_frees_proven_session(error: TargetLiveStartErrorView)
    ensures
        unstarted_end(error).disposition is ReleaseProvenWriter <==> !(error is CleanupUnproven),
        unstarted_end(error).state is Failed <==> !(error is CleanupUnproven),
{
}

/// A turn that the target did not take is never answered as delivered: the conversation is ending
/// anyway, or it is closed and cancelled, and the failure is told.
pub proof fn undelivered_turn_is_told(
    failure: Seq<char>,
    read: Result<ConversationSnapshotView, OperatorErrorView>,
)
    ensures
        match send_moved(
            send_moved(SendStepView::Deliver, SendEventView::Delivered(Err(failure))),
            SendEventView::Read(read),
        ) {
            SendStepView::Done(Ok(snapshot)) => ending_anyway(snapshot),
            SendStepView::Done(Err(error)) => read is Err,
            SendStepView::CloseRefused { failure: told } => told == failure,
            _ => false,
        },
{
}

} // verus!
