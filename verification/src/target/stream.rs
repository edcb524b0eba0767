//! Interprets only the provider evidence that establishes a terminal outcome.

use vstd::prelude::*;
use vstd::string::*;

use crate::contract::target::{
    TargetCommand, TargetCommandView, TargetDiagnostic, TargetSessionId, TargetSuccess, TargetSuccessView, PROVIDER,
};
use crate::identifier::{display_uuid, uuid_text};
use crate::json::{json_parsed, parse_json, Json, JsonView};
use crate::target::provider_event::{event_session, read_session, read_string, required_text};
use crate::text::{joined, joined3, optional, told};

verus! {

/// Why the output does not prove a success: the provider failed, or its evidence is ambiguous.
#[derive(Debug, PartialEq, Eq)]
pub enum InterpretationError {
    ProviderFailure(String),
    Ambiguous(String),
}

/// The mathematical content of [`InterpretationError`].
#[verifier::ext_equal]
pub enum InterpretationErrorView {
    ProviderFailure(Seq<char>),
    Ambiguous(Seq<char>),
}

impl View for InterpretationError {
    type V = InterpretationErrorView;

    open spec fn view(&self) -> InterpretationErrorView {
        match *self {
            InterpretationError::ProviderFailure(value) => InterpretationErrorView::ProviderFailure(value@),
            InterpretationError::Ambiguous(value) => InterpretationErrorView::Ambiguous(value@),
        }
    }
}

impl Clone for InterpretationError {
    fn clone(&self) -> (copy: Self)
        ensures
            copy@ == self@,
    {
        match self {
            InterpretationError::ProviderFailure(value) => InterpretationError::ProviderFailure(value.clone()),
            InterpretationError::Ambiguous(value) => InterpretationError::Ambiguous(value.clone()),
        }
    }
}

/// What the output of a one-shot review has proved so far.
#[derive(Debug, PartialEq, Eq)]
pub struct Evidence {
    pub init_session: Option<TargetSessionId>,
    pub init_model: Option<String>,
    pub version: Option<String>,
    pub result: Option<String>,
}

/// The mathematical content of [`Evidence`].
#[verifier::ext_equal]
pub struct EvidenceView {
    pub init_session: Option<TargetSessionId>,
    pub init_model: Option<Seq<char>>,
    pub version: Option<Seq<char>>,
    pub result: Option<Seq<char>>,
}

impl View for Evidence {
    type V = EvidenceView;

    open spec fn view(&self) -> EvidenceView {
        EvidenceView {
            init_session: self.init_session,
            init_model: optional(self.init_model),
            version: optional(self.version),
            result: optional(self.result),
        }
    }
}

impl Clone for Evidence {
    fn clone(&self) -> (copy: Self)
        ensures
            copy@ == self@,
    {
        Evidence {
            init_session: self.init_session,
            init_model: self.init_model.clone(),
            version: self.version.clone(),
            result: self.result.clone(),
        }
    }
}

/// One event of a one-shot review, as far as its outcome depends on it.
#[derive(Debug, PartialEq, Eq)]
pub enum StreamEvent {
    Init {
        session: Result<TargetSessionId, String>,
        model: Result<String, String>,
        version: Option<String>,
    },
    Outcome {
        session: Result<TargetSessionId, String>,
        is_error: Option<bool>,
        result: Option<String>,
    },
    Ignored,
}

/// The mathematical content of [`StreamEvent`].
#[verifier::ext_equal]
pub enum StreamEventView {
    Init {
        session: Result<TargetSessionId, Seq<char>>,
        model: Result<Seq<char>, Seq<char>>,
        version: Option<Seq<char>>,
    },
    Outcome {
        session: Result<TargetSessionId, Seq<char>>,
        is_error: Option<bool>,
        result: Option<Seq<char>>,
    },
    Ignored,
}

impl View for StreamEvent {
    type V = StreamEventView;

    open spec fn view(&self) -> StreamEventView {
        match *self {
            StreamEvent::Init { session, model, version } => StreamEventView::Init {
                session: told(session),
                model: told(model),
                version: optional(version),
            },
            StreamEvent::Outcome { session, is_error, result } => StreamEventView::Outcome {
                session: told(session),
                is_error,
                result: optional(result),
            },
            StreamEvent::Ignored => StreamEventView::Ignored,
        }
    }
}

/// What one JSON event means to the outcome of a one-shot review.
pub open spec fn stream_event(event: JsonView) -> StreamEventView {
    if event.text_of("type"@) == Some("system"@) && event.text_of("subtype"@) == Some("init"@) {
        StreamEventView::Init {
            session: event_session(event, "init"@),
            model: required_text(event, "init"@, "model"@),
            version: event.text_of("claude_code_version"@),
        }
    } else if event.text_of("type"@) == Some("result"@) {
        StreamEventView::Outcome {
            session: event_session(event, "result"@),
            is_error: event.bool_of("is_error"@),
            result: event.text_of("result"@),
        }
    } else {
        StreamEventView::Ignored
    }
}

/// The retry that an event tells of: numbered from one and within its own maximum, or else
/// unclassified.
pub open spec fn retry_told(event: JsonView) -> TargetDiagnostic {
    match (
        event.unsigned_of("attempt"@),
        event.unsigned_of("max_retries"@),
        event.unsigned_of("retry_delay_ms"@),
    ) {
        (Some(attempt), Some(max_retries), Some(retry_delay_ms)) => if 0 < attempt <= max_retries {
            TargetDiagnostic::ProviderRetrying { attempt, max_retries, retry_delay_ms }
        } else {
            TargetDiagnostic::DiagnosticUnclassified
        },
        _ => TargetDiagnostic::DiagnosticUnclassified,
    }
}

/// The difficulty that an event tells of, if it tells of one.
pub open spec fn diagnostic_told(event: JsonView) -> Option<TargetDiagnostic> {
    if event.text_of("type"@) == Some("system"@) && event.text_of("subtype"@) == Some(
        "api_retry"@,
    ) {
        Some(retry_told(event))
    } else if event.text_of("type"@) == Some("assistant"@) && event.bool_of(
        "is_api_error_message"@,
    ) == Some(true) {
        Some(
            if event.text_of("error"@) == Some("authentication_failed"@) {
                TargetDiagnostic::AuthenticationFailed
            } else {
                TargetDiagnostic::DiagnosticUnclassified
            },
        )
    } else {
        None
    }
}

/// What one event does to the evidence of a review, and why it ends the review where it does.
pub open spec fn evidence_after(
    evidence: EvidenceView,
    event: StreamEventView,
    command: TargetCommandView,
) -> (EvidenceView, Result<(), InterpretationErrorView>) {
    let ambiguous = |message: Seq<char>|
        (evidence, Err(InterpretationErrorView::Ambiguous(message)));
    match event {
        StreamEventView::Ignored => (evidence, Ok(())),
        StreamEventView::Init { session, model, version } => match (session, model) {
            (Err(message), _) => ambiguous(message),
            (_, Err(message)) => ambiguous(message),
            (Ok(session), Ok(model)) => if session != command.session_id {
                ambiguous(init_session_mismatch(command.session_id, session))
            } else if model != command.expected_model {
                ambiguous(init_model_mismatch(command.expected_model, model))
            } else {
                (
                    EvidenceView {
                        init_session: Some(session),
                        init_model: Some(model),
                        version,
                        ..evidence
                    },
                    Ok(()),
                )
            },
        },
        StreamEventView::Outcome { session, is_error, result } => match session {
            Err(message) => ambiguous(message),
            Ok(session) => if session != command.session_id {
                ambiguous(PROVIDER@ + " result session did not match the intended session"@)
            } else {
                match (is_error, result) {
                    (None, _) => ambiguous(PROVIDER@ + " result omitted is_error"@),
                    (Some(false), None) => ambiguous(PROVIDER@ + " result omitted review text"@),
                    (Some(false), Some(text)) => (
                        EvidenceView { result: Some(text), ..evidence },
                        Ok(()),
                    ),
                    (Some(true), text) => (
                        evidence,
                        Err(
                            InterpretationErrorView::ProviderFailure(
                                match text {
                                    None => PROVIDER@ + " terminal failure omitted result text"@,
                                    Some(message) => if message.len() == 0 {
                                        PROVIDER@ + " terminal failure result was empty"@
                                    } else {
                                        message
                                    },
                                },
                            ),
                        ),
                    ),
                }
            },
        },
    }
}

/// The mismatch of the session a provider names, in words.
pub open spec fn init_session_mismatch(
    intended: TargetSessionId,
    observed: TargetSessionId,
) -> Seq<char> {
    PROVIDER@ + " init session mismatch: intended "@ + uuid_text(intended.0) + "; observed "@ + uuid_text(
        observed.0,
    )
}

/// The mismatch of the model a provider names, in words.
pub open spec fn init_model_mismatch(intended: Seq<char>, observed: Seq<char>) -> Seq<char> {
    PROVIDER@ + " init model mismatch: intended "@ + intended + "; observed "@ + observed
}

/// What the whole evidence of a review proves: a success needs a result, and an initialization with
/// the intended session and the expected model.
pub open spec fn proven(evidence: EvidenceView, command: TargetCommandView) -> Result<
    TargetSuccessView,
    InterpretationErrorView,
> {
    match evidence.result {
        None => Err(
            InterpretationErrorView::Ambiguous(
                "direct "@ + PROVIDER@ + " child exited without a result event"@,
            ),
        ),
        Some(result) => match (evidence.init_session, evidence.init_model) {
            (None, _) => Err(
                InterpretationErrorView::Ambiguous(
                    PROVIDER@ + " init session evidence is missing: intended "@ + uuid_text(
                        command.session_id.0,
                    ),
                ),
            ),
            (Some(session), model) => if session != command.session_id {
                Err(
                    InterpretationErrorView::Ambiguous(
                        init_session_mismatch(command.session_id, session),
                    ),
                )
            } else {
                match model {
                    None => Err(
                        InterpretationErrorView::Ambiguous(
                            PROVIDER@ + " init model evidence is missing: intended "@
                                + command.expected_model,
                        ),
                    ),
                    Some(model) => if model != command.expected_model {
                        Err(
                            InterpretationErrorView::Ambiguous(
                                init_model_mismatch(command.expected_model, model),
                            ),
                        )
                    } else {
                        Ok(
                            TargetSuccessView {
                                result,
                                observed_session_id: command.session_id,
                                observed_model: command.expected_model,
                                observed_version: evidence.version,
                            },
                        )
                    },
                }
            },
        },
    }
}

/// What one line of output tells and does.
pub struct Interpretation {
    pub diagnostic: Option<TargetDiagnostic>,
    pub outcome: Result<(), InterpretationError>,
}

/// The content of an interpretation.
pub open spec fn interpretation_error(outcome: Result<(), InterpretationError>) -> Result<
    (),
    InterpretationErrorView,
> {
    match outcome {
        Ok(()) => Ok(()),
        Err(error) => Err(error@),
    }
}

/// Reads what one JSON event means to the outcome of a one-shot review.
pub fn read_stream_event(event: &Json) -> (read: StreamEvent)
    ensures
        read@ == stream_event(event@),
{
    if event.text_is("type", "system") && event.text_is("subtype", "init") {
        return StreamEvent::Init {
            session: read_session(event, "init"),
            model: read_string(event, "init", "model"),
            version: event.text_of("claude_code_version"),
        };
    }
    if event.text_is("type", "result") {
        return StreamEvent::Outcome {
            session: read_session(event, "result"),
            is_error: event.bool_of("is_error"),
            result: event.text_of("result"),
        };
    }
    StreamEvent::Ignored
}

/// The retry that an event tells of.
fn retry_diagnostic(event: &Json) -> (diagnostic: TargetDiagnostic)
    ensures
        diagnostic == retry_told(event@),
{
    match (
        event.unsigned_of("attempt"),
        event.unsigned_of("max_retries"),
        event.unsigned_of("retry_delay_ms"),
    ) {
        (Some(attempt), Some(max_retries), Some(retry_delay_ms)) => {
            if attempt > 0 && max_retries > 0 && attempt <= max_retries {
                TargetDiagnostic::ProviderRetrying { attempt, max_retries, retry_delay_ms }
            } else {
                TargetDiagnostic::DiagnosticUnclassified
            }
        },
        _ => TargetDiagnostic::DiagnosticUnclassified,
    }
}

/// The difficulty that an event tells of, if it tells of one.
pub fn diagnostic(event: &Json) -> (diagnostic: Option<TargetDiagnostic>)
    ensures
        diagnostic == diagnostic_told(event@),
{
    if event.text_is("type", "system") && event.text_is("subtype", "api_retry") {
        return Some(retry_diagnostic(event));
    }
    if event.text_is("type", "assistant") && event.bool_of("is_api_error_message") == Some(true) {
        return Some(
            if event.text_is("error", "authentication_failed") {
                TargetDiagnostic::AuthenticationFailed
            } else {
                TargetDiagnostic::DiagnosticUnclassified
            },
        );
    }
    None
}

/// The mismatch of the session a provider names, in words.
fn session_mismatch_text(intended: TargetSessionId, observed: TargetSessionId) -> (text: String)
    ensures
        text@ == init_session_mismatch(intended, observed),
{
    let mut text = joined3(PROVIDER, " init session mismatch: intended ",
        display_uuid(intended.0).as_str(),
    );
    text.append("; observed ");
    text.append(display_uuid(observed.0).as_str());
    text
}

/// The mismatch of the model a provider names, in words.
fn model_mismatch_text(intended: &str, observed: &str) -> (text: String)
    ensures
        text@ == init_model_mismatch(intended@, observed@),
{
    let mut text = joined3(PROVIDER, " init model mismatch: intended ", intended);
    text.append("; observed ");
    text.append(observed);
    text
}

impl Evidence {
    /// Evidence of nothing.
    pub fn new() -> (evidence: Evidence)
        ensures
            evidence@ == (EvidenceView {
                init_session: None,
                init_model: None,
                version: None,
                result: None,
            }),
    {
        Evidence { init_session: None, init_model: None, version: None, result: None }
    }

    /// Takes one event.
    pub fn accept(&mut self, event: &StreamEvent, command: &TargetCommand) -> (outcome: Result<
        (),
        InterpretationError,
    >)
        ensures
            (final(self)@, interpretation_error(outcome)) == evidence_after(
                old(self)@,
                event@,
                command@,
            ),
    {
        match event {
            StreamEvent::Ignored => Ok(()),
            StreamEvent::Init { session, model, version } => {
                let session = match session {
                    Ok(session) => *session,
                    Err(message) => {
                        return Err(InterpretationError::Ambiguous(message.clone()));
                    },
                };
                let model = match model {
                    Ok(model) => model,
                    Err(message) => {
                        return Err(InterpretationError::Ambiguous(message.clone()));
                    },
                };
                if session != command.session_id {
                    return Err(
                        InterpretationError::Ambiguous(
                            session_mismatch_text(command.session_id, session),
                        ),
                    );
                }
                if !(*model == command.expected_model) {
                    return Err(
                        InterpretationError::Ambiguous(
                            model_mismatch_text(command.expected_model.as_str(), model.as_str()),
                        ),
                    );
                }
                self.init_session = Some(session);
                self.init_model = Some(model.clone());
                self.version = version.clone();
                Ok(())
            },
            StreamEvent::Outcome { session, is_error, result } => {
                let session = match session {
                    Ok(session) => *session,
                    Err(message) => {
                        return Err(InterpretationError::Ambiguous(message.clone()));
                    },
                };
                if session != command.session_id {
                    return Err(
                        InterpretationError::Ambiguous(
                            joined(PROVIDER, " result session did not match the intended session"),
                        ),
                    );
                }
                match (*is_error, result) {
                    (None, _) => Err(
                        InterpretationError::Ambiguous(joined(PROVIDER, " result omitted is_error")),
                    ),
                    (Some(false), None) => Err(
                        InterpretationError::Ambiguous(
                            joined(PROVIDER, " result omitted review text"),
                        ),
                    ),
                    (Some(false), Some(text)) => {
                        self.result = Some(text.clone());
                        Ok(())
                    },
                    (Some(true), None) => Err(
                        InterpretationError::ProviderFailure(
                            joined(PROVIDER, " terminal failure omitted result text"),
                        ),
                    ),
                    (Some(true), Some(message)) => {
                        if message.as_str().is_empty() {
                            Err(
                                InterpretationError::ProviderFailure(
                                    joined(PROVIDER, " terminal failure result was empty"),
                                ),
                            )
                        } else {
                            Err(InterpretationError::ProviderFailure(message.clone()))
                        }
                    },
                }
            },
        }
    }

    /// Takes one line of output. A diagnostic is told whatever the line does to the evidence.
    pub fn observe(&mut self, line: &str, command: &TargetCommand) -> (told: Interpretation)
        ensures
            match json_parsed(line@) {
                Err(message) => {
                    &&& told.diagnostic is None
                    &&& final(self)@ == old(self)@
                    &&& interpretation_error(told.outcome) == Err::<(), _>(
                        InterpretationErrorView::Ambiguous(
                            PROVIDER@ + " emitted invalid stream JSON: "@ + message,
                        ),
                    )
                },
                Ok(event) => {
                    &&& told.diagnostic == diagnostic_told(event)
                    &&& (final(self)@, interpretation_error(told.outcome)) == evidence_after(
                        old(self)@,
                        stream_event(event),
                        command@,
                    )
                },
            },
    {
        match parse_json(line) {
            Err(message) => Interpretation {
                diagnostic: None,
                outcome: Err(
                    InterpretationError::Ambiguous(
                        joined3(PROVIDER, " emitted invalid stream JSON: ", message.as_str()),
                    ),
                ),
            },
            Ok(event) => {
                let told = diagnostic(&event);
                let read = read_stream_event(&event);
                Interpretation { diagnostic: told, outcome: self.accept(&read, command) }
            },
        }
    }

    /// What the whole evidence proves.
    pub fn success(self, command: &TargetCommand) -> (success: Result<
        TargetSuccess,
        InterpretationError,
    >)
        ensures
            match success {
                Ok(success) => proven(self@, command@) == Ok::<_, InterpretationErrorView>(
                    success@,
                ),
                Err(error) => proven(self@, command@) == Err::<TargetSuccessView, _>(error@),
            },
    {
        let result = match self.result {
            Some(result) => result,
            None => {
                return Err(
                    InterpretationError::Ambiguous(
                        joined3("direct ", PROVIDER, " child exited without a result event"),
                    ),
                );
            },
        };
        match self.init_session {
            Some(session) => {
                if session != command.session_id {
                    return Err(
                        InterpretationError::Ambiguous(
                            session_mismatch_text(command.session_id, session),
                        ),
                    );
                }
            },
            None => {
                return Err(
                    InterpretationError::Ambiguous(
                        joined3(PROVIDER, " init session evidence is missing: intended ",
                            display_uuid(command.session_id.0).as_str(),
                        ),
                    ),
                );
            },
        }
        match self.init_model {
            Some(model) => {
                if !(model == command.expected_model) {
                    return Err(
                        InterpretationError::Ambiguous(
                            model_mismatch_text(command.expected_model.as_str(), model.as_str()),
                        ),
                    );
                }
            },
            None => {
                return Err(
                    InterpretationError::Ambiguous(
                        joined3(PROVIDER, " init model evidence is missing: intended ",
                            command.expected_model.as_str(),
                        ),
                    ),
                );
            },
        }
        Ok(
            TargetSuccess {
                result,
                observed_session_id: command.session_id,
                observed_model: command.expected_model.clone(),
                observed_version: self.version,
            },
        )
    }
}

/// A success is always one of the intended session and the expected model, whatever was read.
pub proof fn success_is_of_the_intended_session(evidence: EvidenceView, command: TargetCommandView)
    requires
        proven(evidence, command) is Ok,
    ensures
        evidence.init_session == Some(command.session_id),
        evidence.init_model == Some(command.expected_model),
        proven(evidence, command)->Ok_0.observed_session_id == command.session_id,
        proven(evidence, command)->Ok_0.observed_model == command.expected_model,
        evidence.result == Some(proven(evidence, command)->Ok_0.result),
{
}

/// An event that ends a review leaves the evidence as it was.
pub proof fn refused_evidence_is_kept(
    evidence: EvidenceView,
    event: StreamEventView,
    command: TargetCommandView,
)
    requires
        evidence_after(evidence, event, command).1 is Err,
    ensures
        evidence_after(evidence, event, command).0 == evidence,
{
}

} // verus!
