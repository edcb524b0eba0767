//! Starts one persistent structured child, and cleans up whatever a failed start left.

use vstd::prelude::*;
use vstd::string::*;

use crate::contract::target::{TargetLiveStartError, TargetLiveStartErrorView};
use crate::target::child::{
    failures_among, failures_joined, join_failures, told_all, ChildExitEvidence,
    ChildRegistrationError, ChildRegistrationErrorView,
};
use crate::text::{joined, joined3, optional, told};

verus! {

/// What is left to clean up after a registered child was stopped.
#[derive(Clone, Copy, Debug, PartialEq, Eq, Structural)]
pub enum StopTail {
    Nothing,
    Runtime,
    RuntimeAndObserver,
}

/// What the start of a live conversation does next.
#[derive(Debug, PartialEq, Eq)]
pub enum LiveStartStep {
    /// Spawn the direct child.
    Spawn,
    /// Take the three standard streams of the child.
    Capture,
    /// Kill the child and wait for it.
    StopSpawned { root: String },
    /// Register the child.
    RegisterChild,
    /// Register the runtime.
    RegisterRuntime,
    /// Start the thread that observes the output.
    StartObserver,
    /// Start the thread that writes the input.
    StartWriter,
    /// Hand the runtime over to the observer.
    HandOver,
    /// Terminate the registered child, wait for it, and remove it.
    StopChild { root: String, tail: StopTail },
    /// Remove the runtime.
    RemoveRuntime { failure: TargetLiveStartError, join_observer: bool },
    /// Wait for the observer to end.
    JoinObserver { failure: TargetLiveStartError },
    /// Clean up the whole runtime.
    CleanUp,
    /// Wait for the observer to end after the cleanup.
    JoinCleanedUp { result: Result<(), String>, evidence: ChildExitEvidence },
    /// The conversation runs.
    Started,
    /// The conversation did not start.
    Refused(TargetLiveStartError),
}

/// The mathematical content of [`LiveStartStep`].
#[verifier::ext_equal]
pub enum LiveStartStepView {
    Spawn,
    Capture,
    StopSpawned { root: Seq<char> },
    RegisterChild,
    RegisterRuntime,
    StartObserver,
    StartWriter,
    HandOver,
    StopChild { root: Seq<char>, tail: StopTail },
    RemoveRuntime { failure: TargetLiveStartErrorView, join_observer: bool },
    JoinObserver { failure: TargetLiveStartErrorView },
    CleanUp,
    JoinCleanedUp { result: Result<(), Seq<char>>, evidence: ChildExitEvidence },
    Started,
    Refused(TargetLiveStartErrorView),
}

impl View for LiveStartStep {
    type V = LiveStartStepView;

    open spec fn view(&self) -> LiveStartStepView {
        match *self {
            LiveStartStep::Spawn => LiveStartStepView::Spawn,
            LiveStartStep::Capture => LiveStartStepView::Capture,
            LiveStartStep::StopSpawned { root } => LiveStartStepView::StopSpawned {
                root: root@,
            },
            LiveStartStep::RegisterChild => LiveStartStepView::RegisterChild,
            LiveStartStep::RegisterRuntime => LiveStartStepView::RegisterRuntime,
            LiveStartStep::StartObserver => LiveStartStepView::StartObserver,
            LiveStartStep::StartWriter => LiveStartStepView::StartWriter,
            LiveStartStep::HandOver => LiveStartStepView::HandOver,
            LiveStartStep::StopChild { root, tail } => LiveStartStepView::StopChild {
                root: root@,
                tail,
            },
            LiveStartStep::RemoveRuntime { failure, join_observer } => LiveStartStepView::RemoveRuntime {
                failure: failure@,
                join_observer,
            },
            LiveStartStep::JoinObserver { failure } => LiveStartStepView::JoinObserver {
                failure: failure@,
            },
            LiveStartStep::CleanUp => LiveStartStepView::CleanUp,
            LiveStartStep::JoinCleanedUp { result, evidence } => LiveStartStepView::JoinCleanedUp {
                result: told(result),
                evidence,
            },
            LiveStartStep::Started => LiveStartStepView::Started,
            LiveStartStep::Refused(value) => LiveStartStepView::Refused(value@),
        }
    }
}

/// What became of a step.
#[derive(Debug, PartialEq, Eq)]
pub enum LiveStartEvent {
    Spawned(Result<(), String>),
    Captured { stdin: bool, stdout: bool, stderr: bool },
    SpawnedStopped { termination: Result<(), String>, exit: Result<(), String> },
    ChildRegistered { refusal: Option<ChildRegistrationError> },
    RuntimeRegistered(Result<(), String>),
    ObserverStarted(Result<(), String>),
    WriterStarted(Result<(), String>),
    HandedOver { received: bool },
    ChildStopped { termination: Result<(), String>, wait: Result<(), String>, removal: Result<(), String> },
    RuntimeRemoved(Result<(), String>),
    ObserverJoined { panicked: bool },
    CleanedUp { result: Result<(), String>, evidence: ChildExitEvidence },
}

/// The mathematical content of [`LiveStartEvent`].
#[verifier::ext_equal]
pub enum LiveStartEventView {
    Spawned(Result<(), Seq<char>>),
    Captured { stdin: bool, stdout: bool, stderr: bool },
    SpawnedStopped { termination: Result<(), Seq<char>>, exit: Result<(), Seq<char>> },
    ChildRegistered { refusal: Option<ChildRegistrationErrorView> },
    RuntimeRegistered(Result<(), Seq<char>>),
    ObserverStarted(Result<(), Seq<char>>),
    WriterStarted(Result<(), Seq<char>>),
    HandedOver { received: bool },
    ChildStopped { termination: Result<(), Seq<char>>, wait: Result<(), Seq<char>>, removal: Result<(), Seq<char>> },
    RuntimeRemoved(Result<(), Seq<char>>),
    ObserverJoined { panicked: bool },
    CleanedUp { result: Result<(), Seq<char>>, evidence: ChildExitEvidence },
}

impl View for LiveStartEvent {
    type V = LiveStartEventView;

    open spec fn view(&self) -> LiveStartEventView {
        match *self {
            LiveStartEvent::Spawned(value) => LiveStartEventView::Spawned(told(value)),
            LiveStartEvent::Captured { stdin, stdout, stderr } => LiveStartEventView::Captured {
                stdin,
                stdout,
                stderr,
            },
            LiveStartEvent::SpawnedStopped { termination, exit } => LiveStartEventView::SpawnedStopped {
                termination: told(termination),
                exit: told(exit),
            },
            LiveStartEvent::ChildRegistered { refusal } => LiveStartEventView::ChildRegistered {
                refusal: optional(refusal),
            },
            LiveStartEvent::RuntimeRegistered(value) => LiveStartEventView::RuntimeRegistered(told(value)),
            LiveStartEvent::ObserverStarted(value) => LiveStartEventView::ObserverStarted(told(value)),
            LiveStartEvent::WriterStarted(value) => LiveStartEventView::WriterStarted(told(value)),
            LiveStartEvent::HandedOver { received } => LiveStartEventView::HandedOver {
                received,
            },
            LiveStartEvent::ChildStopped { termination, wait, removal } => LiveStartEventView::ChildStopped {
                termination: told(termination),
                wait: told(wait),
                removal: told(removal),
            },
            LiveStartEvent::RuntimeRemoved(value) => LiveStartEventView::RuntimeRemoved(told(value)),
            LiveStartEvent::ObserverJoined { panicked } => LiveStartEventView::ObserverJoined {
                panicked,
            },
            LiveStartEvent::CleanedUp { result, evidence } => LiveStartEventView::CleanedUp {
                result: told(result),
                evidence,
            },
        }
    }
}

/// The first turn of a conversation has the first durable position; anything else is refused before
/// a child exists.
pub open spec fn start_begun(first_position: u64) -> LiveStartStepView {
    if first_position == 1 {
        LiveStartStepView::Spawn
    } else {
        LiveStartStepView::Refused(
            TargetLiveStartErrorView::NoWriter("first live turn must have durable position 1"@),
        )
    }
}

/// What stopping a child that was only spawned proves.
pub open spec fn spawned_stopped(
    root: Seq<char>,
    termination: Result<(), Seq<char>>,
    exit: Result<(), Seq<char>>,
) -> TargetLiveStartErrorView {
    match (termination, exit) {
        (Ok(()), Ok(())) => TargetLiveStartErrorView::CleanupProvenExited(root),
        (Err(termination), Ok(())) => TargetLiveStartErrorView::CleanupProvenExited(
            root + "; direct child termination request failed after observed exit: "@ + termination,
        ),
        (Ok(()), Err(exit)) => TargetLiveStartErrorView::CleanupUnproven(
            root + "; direct child exit could not be observed: "@ + exit,
        ),
        (Err(termination), Err(exit)) => TargetLiveStartErrorView::CleanupUnproven(
            root + "; direct child termination failed: "@ + termination
                + "; direct child exit could not be observed: "@ + exit,
        ),
    }
}

/// A failed start with the evidence of the exit of its child.
pub open spec fn start_failure(
    evidence: ChildExitEvidence,
    message: Seq<char>,
) -> TargetLiveStartErrorView {
    match evidence {
        ChildExitEvidence::Proven => TargetLiveStartErrorView::CleanupProvenExited(message),
        ChildExitEvidence::Unproven => TargetLiveStartErrorView::CleanupUnproven(message),
    }
}

/// What stopping a registered child proves: its exit is proven where it was observed.
pub open spec fn registered_stopped(
    root: Seq<char>,
    termination: Result<(), Seq<char>>,
    wait: Result<(), Seq<char>>,
    removal: Result<(), Seq<char>>,
) -> TargetLiveStartErrorView {
    let failures = failures_among(seq![termination, wait, removal]);
    start_failure(
        if wait is Ok {
            ChildExitEvidence::Proven
        } else {
            ChildExitEvidence::Unproven
        },
        if failures.len() == 0 {
            root
        } else {
            root + "; direct-child cleanup failed: "@ + failures_joined(failures)
        },
    )
}

/// A failed start with what else went wrong while cleaning up.
pub open spec fn startup_combined(root: Seq<char>, cleanup: Result<(), Seq<char>>) -> Seq<char> {
    match cleanup {
        Ok(()) => root,
        Err(message) => root + "; startup cleanup failed: "@ + message,
    }
}

/// A failed start after a further cleanup: what was proven of the child stays proven, and what was
/// not stays unproven.
pub open spec fn cleanup_appended(
    failure: TargetLiveStartErrorView,
    follow_up: Result<(), Seq<char>>,
) -> TargetLiveStartErrorView {
    let message = startup_combined(failure.text(), follow_up);
    match failure {
        TargetLiveStartErrorView::CleanupUnproven(_) => TargetLiveStartErrorView::CleanupUnproven(
            message,
        ),
        _ => TargetLiveStartErrorView::CleanupProvenExited(message),
    }
}

/// Two cleanup results, in words.
pub open spec fn results_combined(
    root: Seq<char>,
    first: Result<(), Seq<char>>,
    second: Result<(), Seq<char>>,
) -> Result<(), Seq<char>> {
    match (first, second) {
        (Ok(()), Ok(())) => Ok(()),
        (Err(message), Ok(())) => Err(root + "; cleanup failed: "@ + message),
        (Ok(()), Err(message)) => Err(root + "; cleanup failed: "@ + message),
        (Err(first), Err(second)) => Err(
            root + "; first cleanup failure: "@ + first + "; second cleanup failure: "@ + second,
        ),
    }
}

/// The result of waiting for an observer.
pub open spec fn observer_exit(panicked: bool) -> Result<(), Seq<char>> {
    if panicked {
        Err("live observer panicked during startup cleanup"@)
    } else {
        Ok(())
    }
}

/// What the start does after a step became what the event says. An event that does not belong to
/// the step changes nothing.
pub open spec fn start_advanced(step: LiveStartStepView, event: LiveStartEventView) -> LiveStartStepView {
    match (step, event) {
        (LiveStartStepView::Spawn, LiveStartEventView::Spawned(spawned)) => match spawned {
            Ok(()) => LiveStartStepView::Capture,
            Err(message) => LiveStartStepView::Refused(TargetLiveStartErrorView::NoWriter(message)),
        },
        (
            LiveStartStepView::Capture,
            LiveStartEventView::Captured { stdin, stdout, stderr },
        ) => if !stdin {
            LiveStartStepView::StopSpawned { root: "direct live child stdin was not captured"@ }
        } else if !stdout {
            LiveStartStepView::StopSpawned { root: "direct live child stdout was not captured"@ }
        } else if !stderr {
            LiveStartStepView::StopSpawned { root: "direct live child stderr was not captured"@ }
        } else {
            LiveStartStepView::RegisterChild
        },
        (
            LiveStartStepView::StopSpawned { root },
            LiveStartEventView::SpawnedStopped { termination, exit },
        ) => LiveStartStepView::Refused(spawned_stopped(root, termination, exit)),
        (
            LiveStartStepView::RegisterChild,
            LiveStartEventView::ChildRegistered { refusal },
        ) => match refusal {
            None => LiveStartStepView::RegisterRuntime,
            Some(error) => LiveStartStepView::Refused(
                start_failure(error.exit_evidence, error.message),
            ),
        },
        (
            LiveStartStepView::RegisterRuntime,
            LiveStartEventView::RuntimeRegistered(registered),
        ) => match registered {
            Ok(()) => LiveStartStepView::StartObserver,
            Err(root) => LiveStartStepView::StopChild { root, tail: StopTail::Nothing },
        },
        (
            LiveStartStepView::StartObserver,
            LiveStartEventView::ObserverStarted(started),
        ) => match started {
            Ok(()) => LiveStartStepView::StartWriter,
            Err(message) => LiveStartStepView::StopChild {
                root: "live observer thread could not start: "@ + message,
                tail: StopTail::Runtime,
            },
        },
        (
            LiveStartStepView::StartWriter,
            LiveStartEventView::WriterStarted(started),
        ) => match started {
            Ok(()) => LiveStartStepView::HandOver,
            Err(message) => LiveStartStepView::StopChild {
                root: "live input thread could not start: "@ + message,
                tail: StopTail::RuntimeAndObserver,
            },
        },
        (
            LiveStartStepView::StopChild { root, tail },
            LiveStartEventView::ChildStopped { termination, wait, removal },
        ) => {
            let failure = registered_stopped(root, termination, wait, removal);
            match tail {
                StopTail::Nothing => LiveStartStepView::Refused(failure),
                StopTail::Runtime => LiveStartStepView::RemoveRuntime {
                    failure,
                    join_observer: false,
                },
                StopTail::RuntimeAndObserver => LiveStartStepView::RemoveRuntime {
                    failure,
                    join_observer: true,
                },
            }
        },
        (
            LiveStartStepView::RemoveRuntime { failure, join_observer },
            LiveStartEventView::RuntimeRemoved(removed),
        ) => {
            let appended = cleanup_appended(failure, removed);
            if join_observer {
                LiveStartStepView::JoinObserver { failure: appended }
            } else {
                LiveStartStepView::Refused(appended)
            }
        },
        (
            LiveStartStepView::JoinObserver { failure },
            LiveStartEventView::ObserverJoined { panicked },
        ) => LiveStartStepView::Refused(cleanup_appended(failure, observer_exit(panicked))),
        (
            LiveStartStepView::HandOver,
            LiveStartEventView::HandedOver { received },
        ) => if received {
            LiveStartStepView::Started
        } else {
            LiveStartStepView::CleanUp
        },
        (
            LiveStartStepView::CleanUp,
            LiveStartEventView::CleanedUp { result, evidence },
        ) => LiveStartStepView::JoinCleanedUp { result, evidence },
        (
            LiveStartStepView::JoinCleanedUp { result, evidence },
            LiveStartEventView::ObserverJoined { panicked },
        ) => LiveStartStepView::Refused(
            start_failure(
                evidence,
                startup_combined(
                    "live observer stopped before it received the runtime"@,
                    results_combined("live observer cleanup"@, result, observer_exit(panicked)),
                ),
            ),
        ),
        (step, _) => step,
    }
}

/// Begins the start of a live conversation.
pub fn begin(first_position: u64) -> (step: LiveStartStep)
    ensures
        step@ == start_begun(first_position),
{
    if first_position != 1 {
        return LiveStartStep::Refused(
            TargetLiveStartError::NoWriter(
                "first live turn must have durable position 1".to_owned(),
            ),
        );
    }
    LiveStartStep::Spawn
}

/// Tells what stopping a child that was only spawned proves.
pub fn stop_spawned(
    root: &str,
    termination: &Result<(), String>,
    exit: &Result<(), String>,
) -> (error: TargetLiveStartError)
    ensures
        error@ == spawned_stopped(root@, told(*termination), told(*exit)),
{
    match (termination, exit) {
        (Ok(()), Ok(())) => TargetLiveStartError::CleanupProvenExited(root.to_owned()),
        (Err(termination), Ok(())) => TargetLiveStartError::CleanupProvenExited(
            joined3(
                root,
                "; direct child termination request failed after observed exit: ",
                termination.as_str(),
            ),
        ),
        (Ok(()), Err(exit)) => TargetLiveStartError::CleanupUnproven(
            joined3(root, "; direct child exit could not be observed: ", exit.as_str()),
        ),
        (Err(termination), Err(exit)) => {
            let mut message = joined3(
                root,
                "; direct child termination failed: ",
                termination.as_str(),
            );
            message.append("; direct child exit could not be observed: ");
            message.append(exit.as_str());
            TargetLiveStartError::CleanupUnproven(message)
        },
    }
}

/// A failed start with the evidence of the exit of its child.
fn failed(evidence: ChildExitEvidence, message: String) -> (error: TargetLiveStartError)
    ensures
        error@ == start_failure(evidence, message@),
{
    match evidence {
        ChildExitEvidence::Proven => TargetLiveStartError::CleanupProvenExited(message),
        ChildExitEvidence::Unproven => TargetLiveStartError::CleanupUnproven(message),
    }
}

/// Tells what stopping a registered child proves.
fn stop_registered_child(
    root: String,
    termination: Result<(), String>,
    wait: Result<(), String>,
    removal: Result<(), String>,
) -> (error: TargetLiveStartError)
    ensures
        error@ == registered_stopped(root@, told(termination), told(wait), told(removal)),
{
    let evidence = if wait.is_ok() {
        ChildExitEvidence::Proven
    } else {
        ChildExitEvidence::Unproven
    };
    let ghost three = seq![told(termination), told(wait), told(removal)];
    let mut results: Vec<Result<(), String>> = Vec::new();
    results.push(termination);
    results.push(wait);
    results.push(removal);
    proof {
        assert(told_all(results@) =~= three);
    }
    let message = match join_failures(&results) {
        None => root,
        Some(failures) => joined3(
            root.as_str(),
            "; direct-child cleanup failed: ",
            failures.as_str(),
        ),
    };
    failed(evidence, message)
}

/// A failed start with what else went wrong while cleaning up.
fn combine_startup_errors(root: &str, cleanup: &Result<(), String>) -> (text: String)
    ensures
        text@ == startup_combined(root@, told(*cleanup)),
{
    match cleanup {
        Ok(()) => root.to_owned(),
        Err(message) => joined3(root, "; startup cleanup failed: ", message.as_str()),
    }
}

/// A failed start after a further cleanup.
fn append_startup_cleanup(failure: TargetLiveStartError, follow_up: &Result<(), String>) -> (
appended: TargetLiveStartError)
    ensures
        appended@ == cleanup_appended(failure@, told(*follow_up)),
{
    let message = combine_startup_errors(failure.message(), follow_up);
    match failure {
        TargetLiveStartError::NoWriter(_) | TargetLiveStartError::CleanupProvenExited(_) =>
            TargetLiveStartError::CleanupProvenExited(message),
        TargetLiveStartError::CleanupUnproven(_) => TargetLiveStartError::CleanupUnproven(message),
    }
}

/// Two cleanup results, in words.
fn combine_results(root: &str, first: &Result<(), String>, second: &Result<(), String>) -> (
combined: Result<(), String>)
    ensures
        told(combined) == results_combined(root@, told(*first), told(*second)),
{
    match (first, second) {
        (Ok(()), Ok(())) => Ok(()),
        (Err(message), Ok(())) | (Ok(()), Err(message)) => Err(
            joined3(root, "; cleanup failed: ", message.as_str()),
        ),
        (Err(first), Err(second)) => {
            let mut text = joined3(root, "; first cleanup failure: ", first.as_str());
            text.append("; second cleanup failure: ");
            text.append(second.as_str());
            Err(text)
        },
    }
}

/// The result of waiting for an observer.
fn observer_result(panicked: bool) -> (result: Result<(), String>)
    ensures
        told(result) == observer_exit(panicked),
{
    if panicked {
        Err("live observer panicked during startup cleanup".to_owned())
    } else {
        Ok(())
    }
}

/// Goes on with the start of a live conversation.
pub fn advance(step: LiveStartStep, event: LiveStartEvent) -> (next: LiveStartStep)
    ensures
        next@ == start_advanced(step@, event@),
{
    match (step, event) {
        (LiveStartStep::Spawn, LiveStartEvent::Spawned(spawned)) => match spawned {
            Ok(()) => LiveStartStep::Capture,
            Err(message) => LiveStartStep::Refused(TargetLiveStartError::NoWriter(message)),
        },
        (LiveStartStep::Capture, LiveStartEvent::Captured { stdin, stdout, stderr }) => {
            if !stdin {
                LiveStartStep::StopSpawned {
                    root: "direct live child stdin was not captured".to_owned(),
                }
            } else if !stdout {
                LiveStartStep::StopSpawned {
                    root: "direct live child stdout was not captured".to_owned(),
                }
            } else if !stderr {
                LiveStartStep::StopSpawned {
                    root: "direct live child stderr was not captured".to_owned(),
                }
            } else {
                LiveStartStep::RegisterChild
            }
        },
        (
            LiveStartStep::StopSpawned { root },
            LiveStartEvent::SpawnedStopped { termination, exit },
        ) => LiveStartStep::Refused(stop_spawned(root.as_str(), &termination, &exit)),
        (LiveStartStep::RegisterChild, LiveStartEvent::ChildRegistered { refusal }) => match refusal {
            None => LiveStartStep::RegisterRuntime,
            Some(error) => LiveStartStep::Refused(failed(error.exit_evidence, error.message)),
        },
        (LiveStartStep::RegisterRuntime, LiveStartEvent::RuntimeRegistered(registered)) => match registered {
            Ok(()) => LiveStartStep::StartObserver,
            Err(root) => LiveStartStep::StopChild { root, tail: StopTail::Nothing },
        },
        (LiveStartStep::StartObserver, LiveStartEvent::ObserverStarted(started)) => match started {
            Ok(()) => LiveStartStep::StartWriter,
            Err(message) => LiveStartStep::StopChild {
                root: joined("live observer thread could not start: ", message.as_str()),
                tail: StopTail::Runtime,
            },
        },
        (LiveStartStep::StartWriter, LiveStartEvent::WriterStarted(started)) => match started {
            Ok(()) => LiveStartStep::HandOver,
            Err(message) => LiveStartStep::StopChild {
                root: joined("live input thread could not start: ", message.as_str()),
                tail: StopTail::RuntimeAndObserver,
            },
        },
        (
            LiveStartStep::StopChild { root, tail },
            LiveStartEvent::ChildStopped { termination, wait, removal },
        ) => {
            let failure = stop_registered_child(root, termination, wait, removal);
            match tail {
                StopTail::Nothing => LiveStartStep::Refused(failure),
                StopTail::Runtime => LiveStartStep::RemoveRuntime {
                    failure,
                    join_observer: false,
                },
                StopTail::RuntimeAndObserver => LiveStartStep::RemoveRuntime {
                    failure,
                    join_observer: true,
                },
            }
        },
        (
            LiveStartStep::RemoveRuntime { failure, join_observer },
            LiveStartEvent::RuntimeRemoved(removed),
        ) => {
            let appended = append_startup_cleanup(failure, &removed);
            if join_observer {
                LiveStartStep::JoinObserver { failure: appended }
            } else {
                LiveStartStep::Refused(appended)
            }
        },
        (LiveStartStep::JoinObserver { failure }, LiveStartEvent::ObserverJoined { panicked }) =>
            LiveStartStep::Refused(append_startup_cleanup(failure, &observer_result(panicked))),
        (LiveStartStep::HandOver, LiveStartEvent::HandedOver { received }) => {
            if received {
                LiveStartStep::Started
            } else {
                LiveStartStep::CleanUp
            }
        },
        (LiveStartStep::CleanUp, LiveStartEvent::CleanedUp { result, evidence }) =>
            LiveStartStep::JoinCleanedUp { result, evidence },
        (
            LiveStartStep::JoinCleanedUp { result, evidence },
            LiveStartEvent::ObserverJoined { panicked },
        ) => {
            let combined = combine_results(
                "live observer cleanup",
                &result,
                &observer_result(panicked),
            );
            LiveStartStep::Refused(
                failed(
                    evidence,
                    combine_startup_errors(
                        "live observer stopped before it received the runtime",
                        &combined,
                    ),
                ),
            )
        },
        (step, _) => step,
    }
}

/// A refused start is said to have left no writer only where no child was ever spawned.
pub proof fn no_writer_only_without_a_child(step: LiveStartStepView, event: LiveStartEventView)
    requires
        start_advanced(step, event) matches LiveStartStepView::Refused(error) && error is NoWriter,
        !(step is Refused),
    ensures
        step is Spawn,
        event matches LiveStartEventView::Spawned(spawned) && spawned is Err,
{
}

/// A start that stopped a registered child is said to have proven its exit exactly where that exit
/// was observed.
pub proof fn stopped_child_is_proven_by_its_wait(
    root: Seq<char>,
    termination: Result<(), Seq<char>>,
    wait: Result<(), Seq<char>>,
    removal: Result<(), Seq<char>>,
)
    ensures
        registered_stopped(root, termination, wait, removal) is CleanupProvenExited <==> wait is Ok,
        registered_stopped(root, termination, wait, removal) is CleanupUnproven <==> wait is Err,
{
}

/// A further cleanup never turns an unproven exit into a proven one, nor back.
pub proof fn further_cleanup_keeps_the_proof(
    failure: TargetLiveStartErrorView,
    follow_up: Result<(), Seq<char>>,
)
    ensures
        cleanup_appended(failure, follow_up) is CleanupUnproven <==> failure is CleanupUnproven,
{
}

/// A conversation counts as started only once the observer has received the runtime.
pub proof fn started_only_after_hand_over(step: LiveStartStepView, event: LiveStartEventView)
    requires
        start_advanced(step, event) is Started,
        !(step is Started),
    ensures
        step is HandOver,
        event == (LiveStartEventView::HandedOver { received: true }),
{
}

} // verus!
