//! Provider-neutral execution contract owned by Target Execution.

use vstd::prelude::*;
use vstd::string::*;

use crate::text::optional;

verus! {

/// The name of the provider, as messages tell it.
pub const PROVIDER: &'static str = "Target";

/// An operation as Target Execution knows it.
#[derive(Clone, Copy, Debug, PartialEq, Eq, Structural, Hash)]
pub struct TargetOperationId(pub u128);

impl View for TargetOperationId {
    type V = TargetOperationId;

    open spec fn view(&self) -> TargetOperationId {
        *self
    }
}

/// A session of the target as Target Execution knows it.
#[derive(Clone, Copy, Debug, PartialEq, Eq, Structural, Hash)]
pub struct TargetSessionId(pub u128);

impl View for TargetSessionId {
    type V = TargetSessionId;

    open spec fn view(&self) -> TargetSessionId {
        *self
    }
}

/// A turn as Target Execution knows it.
#[derive(Clone, Copy, Debug, PartialEq, Eq, Structural, Hash)]
pub struct TargetTurnId(pub u128);

impl View for TargetTurnId {
    type V = TargetTurnId;

    open spec fn view(&self) -> TargetTurnId {
        *self
    }
}

/// Whether a launch opens a session or resumes an exact one.
#[derive(Clone, Copy, Debug, PartialEq, Eq, Structural)]
pub enum TargetIntent {
    New,
    ResumeExact { session_id: TargetSessionId },
}

/// The launch facts of one one-shot review.
#[derive(Debug, PartialEq, Eq)]
pub struct TargetCommand {
    pub operation_id: TargetOperationId,
    pub working_directory: String,
    pub executable: String,
    pub expected_model: String,
    pub intent: TargetIntent,
    pub session_id: TargetSessionId,
    pub prompt: String,
}

/// The mathematical content of [`TargetCommand`].
#[verifier::ext_equal]
pub struct TargetCommandView {
    pub operation_id: TargetOperationId,
    pub working_directory: Seq<char>,
    pub executable: Seq<char>,
    pub expected_model: Seq<char>,
    pub intent: TargetIntent,
    pub session_id: TargetSessionId,
    pub prompt: Seq<char>,
}

impl View for TargetCommand {
    type V = TargetCommandView;

    open spec fn view(&self) -> TargetCommandView {
        TargetCommandView {
            operation_id: self.operation_id,
            working_directory: self.working_directory@,
            executable: self.executable@,
            expected_model: self.expected_model@,
            intent: self.intent,
            session_id: self.session_id,
            prompt: self.prompt@,
        }
    }
}

impl Clone for TargetCommand {
    fn clone(&self) -> (copy: Self)
        ensures
            copy@ == self@,
    {
        TargetCommand {
            operation_id: self.operation_id,
            working_directory: self.working_directory.clone(),
            executable: self.executable.clone(),
            expected_model: self.expected_model.clone(),
            intent: self.intent,
            session_id: self.session_id,
            prompt: self.prompt.clone(),
        }
    }
}

/// What became of a launch.
#[derive(Debug, PartialEq, Eq)]
pub enum TargetLaunch {
    Launched,
    SpawnFailed(String),
    CancelledBeforeLaunch,
}

/// The mathematical content of [`TargetLaunch`].
#[verifier::ext_equal]
pub enum TargetLaunchView {
    Launched,
    SpawnFailed(Seq<char>),
    CancelledBeforeLaunch,
}

impl View for TargetLaunch {
    type V = TargetLaunchView;

    open spec fn view(&self) -> TargetLaunchView {
        match *self {
            TargetLaunch::Launched => TargetLaunchView::Launched,
            TargetLaunch::SpawnFailed(value) => TargetLaunchView::SpawnFailed(value@),
            TargetLaunch::CancelledBeforeLaunch => TargetLaunchView::CancelledBeforeLaunch,
        }
    }
}

impl Clone for TargetLaunch {
    fn clone(&self) -> (copy: Self)
        ensures
            copy@ == self@,
    {
        match self {
            TargetLaunch::Launched => TargetLaunch::Launched,
            TargetLaunch::SpawnFailed(value) => TargetLaunch::SpawnFailed(value.clone()),
            TargetLaunch::CancelledBeforeLaunch => TargetLaunch::CancelledBeforeLaunch,
        }
    }
}

/// The evidence of one successful review.
#[derive(Debug, PartialEq, Eq)]
pub struct TargetSuccess {
    pub result: String,
    pub observed_session_id: TargetSessionId,
    pub observed_model: String,
    pub observed_version: Option<String>,
}

/// The mathematical content of [`TargetSuccess`].
#[verifier::ext_equal]
pub struct TargetSuccessView {
    pub result: Seq<char>,
    pub observed_session_id: TargetSessionId,
    pub observed_model: Seq<char>,
    pub observed_version: Option<Seq<char>>,
}

impl View for TargetSuccess {
    type V = TargetSuccessView;

    open spec fn view(&self) -> TargetSuccessView {
        TargetSuccessView {
            result: self.result@,
            observed_session_id: self.observed_session_id,
            observed_model: self.observed_model@,
            observed_version: optional(self.observed_version),
        }
    }
}

impl Clone for TargetSuccess {
    fn clone(&self) -> (copy: Self)
        ensures
            copy@ == self@,
    {
        TargetSuccess {
            result: self.result.clone(),
            observed_session_id: self.observed_session_id,
            observed_model: self.observed_model.clone(),
            observed_version: self.observed_version.clone(),
        }
    }
}

/// How one one-shot review ended.
#[derive(Debug, PartialEq, Eq)]
pub enum TargetOutcome {
    SpawnFailed(String),
    Success(TargetSuccess),
    Failed(String),
    Cancelled(String),
    CancelledBeforeLaunch(String),
    Indeterminate(String),
}

/// The mathematical content of [`TargetOutcome`].
#[verifier::ext_equal]
pub enum TargetOutcomeView {
    SpawnFailed(Seq<char>),
    Success(TargetSuccessView),
    Failed(Seq<char>),
    Cancelled(Seq<char>),
    CancelledBeforeLaunch(Seq<char>),
    Indeterminate(Seq<char>),
}

impl View for TargetOutcome {
    type V = TargetOutcomeView;

    open spec fn view(&self) -> TargetOutcomeView {
        match *self {
            TargetOutcome::SpawnFailed(value) => TargetOutcomeView::SpawnFailed(value@),
            TargetOutcome::Success(value) => TargetOutcomeView::Success(value@),
            TargetOutcome::Failed(value) => TargetOutcomeView::Failed(value@),
            TargetOutcome::Cancelled(value) => TargetOutcomeView::Cancelled(value@),
            TargetOutcome::CancelledBeforeLaunch(value) => TargetOutcomeView::CancelledBeforeLaunch(value@),
            TargetOutcome::Indeterminate(value) => TargetOutcomeView::Indeterminate(value@),
        }
    }
}

impl Clone for TargetOutcome {
    fn clone(&self) -> (copy: Self)
        ensures
            copy@ == self@,
    {
        match self {
            TargetOutcome::SpawnFailed(value) => TargetOutcome::SpawnFailed(value.clone()),
            TargetOutcome::Success(value) => TargetOutcome::Success(value.clone()),
            TargetOutcome::Failed(value) => TargetOutcome::Failed(value.clone()),
            TargetOutcome::Cancelled(value) => TargetOutcome::Cancelled(value.clone()),
            TargetOutcome::CancelledBeforeLaunch(value) => TargetOutcome::CancelledBeforeLaunch(value.clone()),
            TargetOutcome::Indeterminate(value) => TargetOutcome::Indeterminate(value.clone()),
        }
    }
}

/// What a provider says of its own difficulties.
#[derive(Clone, Copy, Debug, PartialEq, Eq, Structural)]
pub enum TargetDiagnostic {
    ProviderRetrying { attempt: u64, max_retries: u64, retry_delay_ms: u64 },
    AuthenticationFailed,
    DiagnosticUnclassified,
}

/// One Control-admitted turn, identified by the UUID sent to the provider.
#[derive(Debug, PartialEq, Eq)]
pub struct TargetLiveTurn {
    pub turn_id: TargetTurnId,
    pub position: u64,
    pub prompt: String,
}

/// The mathematical content of [`TargetLiveTurn`].
#[verifier::ext_equal]
pub struct TargetLiveTurnView {
    pub turn_id: TargetTurnId,
    pub position: u64,
    pub prompt: Seq<char>,
}

impl View for TargetLiveTurn {
    type V = TargetLiveTurnView;

    open spec fn view(&self) -> TargetLiveTurnView {
        TargetLiveTurnView {
            turn_id: self.turn_id,
            position: self.position,
            prompt: self.prompt@,
        }
    }
}

impl Clone for TargetLiveTurn {
    fn clone(&self) -> (copy: Self)
        ensures
            copy@ == self@,
    {
        TargetLiveTurn {
            turn_id: self.turn_id,
            position: self.position,
            prompt: self.prompt.clone(),
        }
    }
}

impl TargetLiveTurn {
    /// Whether two turns agree in every part.
    pub fn same(&self, other: &TargetLiveTurn) -> (same: bool)
        ensures
            same == (self@ == other@),
    {
        self.turn_id == other.turn_id && self.position == other.position && self.prompt
            == other.prompt
    }
}

/// The provider-neutral launch facts for one persistent structured conversation.
#[derive(Debug, PartialEq, Eq)]
pub struct TargetLiveStart {
    pub operation_id: TargetOperationId,
    pub working_directory: String,
    pub executable: String,
    pub expected_model: String,
    pub intent: TargetIntent,
    pub session_id: TargetSessionId,
    pub first_turn: TargetLiveTurn,
}

/// The mathematical content of [`TargetLiveStart`].
#[verifier::ext_equal]
pub struct TargetLiveStartView {
    pub operation_id: TargetOperationId,
    pub working_directory: Seq<char>,
    pub executable: Seq<char>,
    pub expected_model: Seq<char>,
    pub intent: TargetIntent,
    pub session_id: TargetSessionId,
    pub first_turn: TargetLiveTurnView,
}

impl View for TargetLiveStart {
    type V = TargetLiveStartView;

    open spec fn view(&self) -> TargetLiveStartView {
        TargetLiveStartView {
            operation_id: self.operation_id,
            working_directory: self.working_directory@,
            executable: self.executable@,
            expected_model: self.expected_model@,
            intent: self.intent,
            session_id: self.session_id,
            first_turn: self.first_turn@,
        }
    }
}

impl Clone for TargetLiveStart {
    fn clone(&self) -> (copy: Self)
        ensures
            copy@ == self@,
    {
        TargetLiveStart {
            operation_id: self.operation_id,
            working_directory: self.working_directory.clone(),
            executable: self.executable.clone(),
            expected_model: self.expected_model.clone(),
            intent: self.intent,
            session_id: self.session_id,
            first_turn: self.first_turn.clone(),
        }
    }
}

/// How a live conversation is asked to stop.
#[derive(Clone, Copy, Debug, PartialEq, Eq, Structural)]
pub enum TargetLiveStop {
    Graceful { through_position: u64 },
    Cancel,
}

/// Evidence about whether a failed live start left a possible session writer.
#[derive(Debug, PartialEq, Eq)]
pub enum TargetLiveStartError {
    /// No direct child was created, so no writer can own the session.
    NoWriter(String),
    /// Startup cleanup observed the direct child exit.
    CleanupProvenExited(String),
    /// Startup reached a child or writer state whose exit was not proved.
    CleanupUnproven(String),
}

/// The mathematical content of [`TargetLiveStartError`].
#[verifier::ext_equal]
pub enum TargetLiveStartErrorView {
    NoWriter(Seq<char>),
    CleanupProvenExited(Seq<char>),
    CleanupUnproven(Seq<char>),
}

impl View for TargetLiveStartError {
    type V = TargetLiveStartErrorView;

    open spec fn view(&self) -> TargetLiveStartErrorView {
        match *self {
            TargetLiveStartError::NoWriter(value) => TargetLiveStartErrorView::NoWriter(value@),
            TargetLiveStartError::CleanupProvenExited(value) => TargetLiveStartErrorView::CleanupProvenExited(value@),
            TargetLiveStartError::CleanupUnproven(value) => TargetLiveStartErrorView::CleanupUnproven(value@),
        }
    }
}

impl Clone for TargetLiveStartError {
    fn clone(&self) -> (copy: Self)
        ensures
            copy@ == self@,
    {
        match self {
            TargetLiveStartError::NoWriter(value) => TargetLiveStartError::NoWriter(value.clone()),
            TargetLiveStartError::CleanupProvenExited(value) => TargetLiveStartError::CleanupProvenExited(value.clone()),
            TargetLiveStartError::CleanupUnproven(value) => TargetLiveStartError::CleanupUnproven(value.clone()),
        }
    }
}

impl TargetLiveStartErrorView {
    /// The text of the error.
    pub open spec fn text(self) -> Seq<char> {
        match self {
            TargetLiveStartErrorView::NoWriter(message) => message,
            TargetLiveStartErrorView::CleanupProvenExited(message) => message,
            TargetLiveStartErrorView::CleanupUnproven(message) => message,
        }
    }
}

impl TargetLiveStartError {
    pub fn message(&self) -> (message: &str)
        ensures
            message@ == self@.text(),
    {
        match self {
            TargetLiveStartError::NoWriter(message)
            | TargetLiveStartError::CleanupProvenExited(message)
            | TargetLiveStartError::CleanupUnproven(message) => message.as_str(),
        }
    }
}

/// Correlated provider facts. Control owns their durable interpretation.
#[derive(Debug, PartialEq, Eq)]
pub enum TargetLiveObservation {
    Initialized { session_id: TargetSessionId, model: String, version: Option<String> },
    TurnQueued { turn_id: TargetTurnId },
    TurnStarted { turn_id: TargetTurnId },
    TurnAcknowledged { turn_id: TargetTurnId },
    AssistantTextDelta { turn_id: TargetTurnId, text: String },
    TurnCompleted { turn_id: TargetTurnId, result: String },
    TurnFailed { turn_id: TargetTurnId, message: String },
    Cancelled,
    Exited,
    Failed(String),
    Indeterminate(String),
    /// Target could not prove that the direct writer exited during cleanup.
    UnclassifiedWriter(String),
}

/// The mathematical content of [`TargetLiveObservation`].
#[verifier::ext_equal]
pub enum TargetLiveObservationView {
    Initialized { session_id: TargetSessionId, model: Seq<char>, version: Option<Seq<char>> },
    TurnQueued { turn_id: TargetTurnId },
    TurnStarted { turn_id: TargetTurnId },
    TurnAcknowledged { turn_id: TargetTurnId },
    AssistantTextDelta { turn_id: TargetTurnId, text: Seq<char> },
    TurnCompleted { turn_id: TargetTurnId, result: Seq<char> },
    TurnFailed { turn_id: TargetTurnId, message: Seq<char> },
    Cancelled,
    Exited,
    Failed(Seq<char>),
    Indeterminate(Seq<char>),
    UnclassifiedWriter(Seq<char>),
}

impl View for TargetLiveObservation {
    type V = TargetLiveObservationView;

    open spec fn view(&self) -> TargetLiveObservationView {
        match *self {
            TargetLiveObservation::Initialized { session_id, model, version } => TargetLiveObservationView::Initialized {
                session_id,
                model: model@,
                version: optional(version),
            },
            TargetLiveObservation::TurnQueued { turn_id } => TargetLiveObservationView::TurnQueued {
                turn_id,
            },
            TargetLiveObservation::TurnStarted { turn_id } => TargetLiveObservationView::TurnStarted {
                turn_id,
            },
            TargetLiveObservation::TurnAcknowledged { turn_id } => TargetLiveObservationView::TurnAcknowledged {
                turn_id,
            },
            TargetLiveObservation::AssistantTextDelta { turn_id, text } => TargetLiveObservationView::AssistantTextDelta {
                turn_id,
                text: text@,
            },
            TargetLiveObservation::TurnCompleted { turn_id, result } => TargetLiveObservationView::TurnCompleted {
                turn_id,
                result: result@,
            },
            TargetLiveObservation::TurnFailed { turn_id, message } => TargetLiveObservationView::TurnFailed {
                turn_id,
                message: message@,
            },
            TargetLiveObservation::Cancelled => TargetLiveObservationView::Cancelled,
            TargetLiveObservation::Exited => TargetLiveObservationView::Exited,
            TargetLiveObservation::Failed(value) => TargetLiveObservationView::Failed(value@),
            TargetLiveObservation::Indeterminate(value) => TargetLiveObservationView::Indeterminate(value@),
            TargetLiveObservation::UnclassifiedWriter(value) => TargetLiveObservationView::UnclassifiedWriter(value@),
        }
    }
}

impl Clone for TargetLiveObservation {
    fn clone(&self) -> (copy: Self)
        ensures
            copy@ == self@,
    {
        match self {
            TargetLiveObservation::Initialized { session_id, model, version } => TargetLiveObservation::Initialized {
                session_id: *session_id,
                model: model.clone(),
                version: version.clone(),
            },
            TargetLiveObservation::TurnQueued { turn_id } => TargetLiveObservation::TurnQueued {
                turn_id: *turn_id,
            },
            TargetLiveObservation::TurnStarted { turn_id } => TargetLiveObservation::TurnStarted {
                turn_id: *turn_id,
            },
            TargetLiveObservation::TurnAcknowledged { turn_id } => TargetLiveObservation::TurnAcknowledged {
                turn_id: *turn_id,
            },
            TargetLiveObservation::AssistantTextDelta { turn_id, text } => TargetLiveObservation::AssistantTextDelta {
                turn_id: *turn_id,
                text: text.clone(),
            },
            TargetLiveObservation::TurnCompleted { turn_id, result } => TargetLiveObservation::TurnCompleted {
                turn_id: *turn_id,
                result: result.clone(),
            },
            TargetLiveObservation::TurnFailed { turn_id, message } => TargetLiveObservation::TurnFailed {
                turn_id: *turn_id,
                message: message.clone(),
            },
            TargetLiveObservation::Cancelled => TargetLiveObservation::Cancelled,
            TargetLiveObservation::Exited => TargetLiveObservation::Exited,
            TargetLiveObservation::Failed(value) => TargetLiveObservation::Failed(value.clone()),
            TargetLiveObservation::Indeterminate(value) => TargetLiveObservation::Indeterminate(value.clone()),
            TargetLiveObservation::UnclassifiedWriter(value) => TargetLiveObservation::UnclassifiedWriter(value.clone()),
        }
    }
}

} // verus!
