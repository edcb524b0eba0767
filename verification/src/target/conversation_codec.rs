//! Validates UUID-correlated structured provider events into neutral observations.

use vstd::prelude::*;
use vstd::string::*;

use crate::contract::target::{
    TargetLiveObservation, TargetLiveObservationView, TargetLiveTurn, TargetLiveTurnView, TargetSessionId, TargetTurnId, PROVIDER,
};
use crate::identifier::uuid_text;
use crate::json::{json_parsed, parse_json, JsonView};
use crate::keyed::{
    distinct, keyed, lemma_absent, lemma_present, lemma_push, lemma_row, lemma_update, lookup,
};
use crate::target::provider_event::{
    provider_event, read_event, ProviderEvent, ProviderEventView,
};
use crate::text::{joined, joined3, optional, same_optional_text, same_text, told, views};

verus! {

/// A provider terminal failure is distinct from ambiguous protocol evidence.
#[derive(Debug, PartialEq, Eq)]
pub enum CodecError {
    Failed { turn_id: TargetTurnId, message: String },
    Indeterminate(String),
}

/// The mathematical content of [`CodecError`].
#[verifier::ext_equal]
pub enum CodecErrorView {
    Failed { turn_id: TargetTurnId, message: Seq<char> },
    Indeterminate(Seq<char>),
}

impl View for CodecError {
    type V = CodecErrorView;

    open spec fn view(&self) -> CodecErrorView {
        match *self {
            CodecError::Failed { turn_id, message } => CodecErrorView::Failed {
                turn_id,
                message: message@,
            },
            CodecError::Indeterminate(value) => CodecErrorView::Indeterminate(value@),
        }
    }
}

impl Clone for CodecError {
    fn clone(&self) -> (copy: Self)
        ensures
            copy@ == self@,
    {
        match self {
            CodecError::Failed { turn_id, message } => CodecError::Failed {
                turn_id: *turn_id,
                message: message.clone(),
            },
            CodecError::Indeterminate(value) => CodecError::Indeterminate(value.clone()),
        }
    }
}

/// How far the provider has come with one turn.
#[derive(Clone, Copy, Debug, PartialEq, Eq, Structural)]
pub enum TurnPhase {
    AwaitingQueue,
    Queued,
    Started,
    ResultObserved,
    Completed,
}

/// What the provider said of itself.
#[derive(Debug, PartialEq, Eq)]
pub struct Initialization {
    pub session_id: TargetSessionId,
    pub model: String,
    pub version: Option<String>,
}

/// The mathematical content of [`Initialization`].
#[verifier::ext_equal]
pub struct InitializationView {
    pub session_id: TargetSessionId,
    pub model: Seq<char>,
    pub version: Option<Seq<char>>,
}

impl View for Initialization {
    type V = InitializationView;

    open spec fn view(&self) -> InitializationView {
        InitializationView {
            session_id: self.session_id,
            model: self.model@,
            version: optional(self.version),
        }
    }
}

impl Clone for Initialization {
    fn clone(&self) -> (copy: Self)
        ensures
            copy@ == self@,
    {
        Initialization {
            session_id: self.session_id,
            model: self.model.clone(),
            version: self.version.clone(),
        }
    }
}

/// One turn that was written to the provider.
#[derive(Debug, PartialEq, Eq)]
pub struct TurnEntry {
    pub turn: TargetLiveTurn,
    pub phase: TurnPhase,
    pub result: Option<String>,
}

/// The mathematical content of [`TurnEntry`].
#[verifier::ext_equal]
pub struct TurnEntryView {
    pub turn: TargetLiveTurnView,
    pub phase: TurnPhase,
    pub result: Option<Seq<char>>,
}

impl View for TurnEntry {
    type V = TurnEntryView;

    open spec fn view(&self) -> TurnEntryView {
        TurnEntryView {
            turn: self.turn@,
            phase: self.phase,
            result: optional(self.result),
        }
    }
}

impl Clone for TurnEntry {
    fn clone(&self) -> (copy: Self)
        ensures
            copy@ == self@,
    {
        TurnEntry {
            turn: self.turn.clone(),
            phase: self.phase,
            result: self.result.clone(),
        }
    }
}

/// The mathematical content of [`Codec`].
#[verifier::ext_equal]
pub struct CodecView {
    pub initialized: Option<InitializationView>,
    pub turns: Map<TargetTurnId, TurnEntryView>,
}

/// What one event does to a codec, and what it lets be observed.
pub type Accepted = (CodecView, Result<Seq<TargetLiveObservationView>, CodecErrorView>);

impl CodecView {
    /// A codec that has seen nothing.
    pub open spec fn empty() -> CodecView {
        CodecView { initialized: None, turns: Map::empty() }
    }

    /// Whether the provider works on the turn.
    pub open spec fn started(self, turn_id: TargetTurnId) -> bool {
        self.turns.contains_key(turn_id) && self.turns[turn_id].phase is Started
    }

    /// Whether the provider works on the turn or has yet to complete it.
    pub open spec fn active(self, turn_id: TargetTurnId) -> bool {
        self.turns.contains_key(turn_id) && (self.turns[turn_id].phase is Started
            || self.turns[turn_id].phase is ResultObserved)
    }

    /// Whether some turn is active.
    pub open spec fn has_active(self) -> bool {
        exists|turn_id: TargetTurnId| #[trigger] self.active(turn_id)
    }

    /// Whether every turn is completed.
    pub open spec fn all_done(self) -> bool {
        forall|turn_id: TargetTurnId| #[trigger]
            self.turns.contains_key(turn_id) ==> self.turns[turn_id].phase is Completed
    }

    /// The one turn the provider works on.
    pub open spec fn sole_started(self) -> Result<TargetTurnId, Seq<char>> {
        if exists|left: TargetTurnId, right: TargetTurnId|
            left != right && #[trigger] self.started(left) && #[trigger] self.started(right) {
            Err(PROVIDER@ + " provider event had more than one started turn"@)
        } else if exists|turn_id: TargetTurnId| #[trigger] self.started(turn_id) {
            Ok(choose|turn_id: TargetTurnId| #[trigger] self.started(turn_id))
        } else {
            Err(PROVIDER@ + " provider event had no uniquely started turn"@)
        }
    }

    /// The codec with one turn rewritten.
    pub open spec fn with_turn(self, entry: TurnEntryView) -> CodecView {
        CodecView { turns: self.turns.insert(entry.turn.turn_id, entry), ..self }
    }

    /// A refusal that leaves the codec as it is.
    pub open spec fn refuse(self, message: Seq<char>) -> Accepted {
        (self, Err(CodecErrorView::Indeterminate(message)))
    }

    /// Nothing to observe, and the codec as it is.
    pub open spec fn silent(self) -> Accepted {
        (self, Ok(Seq::empty()))
    }
}

/// The mismatch of two sessions, in words.
pub open spec fn session_mismatch(
    name: Seq<char>,
    intended: TargetSessionId,
    observed: TargetSessionId,
) -> Seq<char> {
    PROVIDER@ + " "@ + name + " session mismatch: intended "@ + uuid_text(intended.0) + "; observed "@
        + uuid_text(observed.0)
}

/// Why a session does not stand for the intended one, if it does not.
pub open spec fn session_refusal(
    session: Result<TargetSessionId, Seq<char>>,
    name: Seq<char>,
    intended: TargetSessionId,
) -> Option<Seq<char>> {
    match session {
        Err(message) => Some(message),
        Ok(observed) => if observed == intended {
            None
        } else {
            Some(session_mismatch(name, intended, observed))
        },
    }
}

/// A repeated initialization must be the same as the first.
pub open spec fn accept_init(
    codec: CodecView,
    session: Result<TargetSessionId, Seq<char>>,
    model: Result<Seq<char>, Seq<char>>,
    version: Option<Seq<char>>,
    expected_model: Seq<char>,
    intended: TargetSessionId,
) -> Accepted {
    match (session, model) {
        (Err(message), _) => codec.refuse(message),
        (_, Err(message)) => codec.refuse(message),
        (Ok(session_id), Ok(model)) => if session_id != intended {
            codec.refuse(session_mismatch("init"@, intended, session_id))
        } else if model != expected_model {
            codec.refuse(
                PROVIDER@ + " init model mismatch: intended "@ + expected_model + "; observed "@ + model,
            )
        } else {
            let identity = InitializationView { session_id, model, version };
            if codec.initialized is Some && codec.initialized != Some(identity) {
                codec.refuse(PROVIDER@ + " init contradicted prior live conversation identity"@)
            } else {
                (
                    CodecView { initialized: Some(identity), ..codec },
                    Ok(
                        seq![
                            TargetLiveObservationView::Initialized { session_id, model, version },
                        ],
                    ),
                )
            }
        },
    }
}

/// The refusal of a lifecycle state that does not follow the phase of its turn.
pub open spec fn lifecycle_contradiction(state: Seq<char>, turn_id: TargetTurnId) -> Seq<char> {
    PROVIDER@ + " lifecycle "@ + state + " contradicted turn TargetTurnId("@ + uuid_text(turn_id.0)
        + ") phase"@
}

/// A turn is queued, started and completed once each, in this order, and completed only after its
/// result; and no turn starts while another is active.
pub open spec fn accept_lifecycle(
    codec: CodecView,
    session: Result<TargetSessionId, Seq<char>>,
    turn: Result<TargetTurnId, Seq<char>>,
    state: Result<Seq<char>, Seq<char>>,
    intended: TargetSessionId,
) -> Accepted {
    match (session_refusal(session, "command_lifecycle"@, intended), turn, state) {
        (Some(message), _, _) => codec.refuse(message),
        (_, Err(message), _) => codec.refuse(message),
        (_, _, Err(message)) => codec.refuse(message),
        (None, Ok(turn_id), Ok(state)) => if state == "started"@ && codec.has_active() {
            codec.refuse(PROVIDER@ + " started a live turn while another turn was active"@)
        } else {
            match lookup(codec.turns, turn_id) {
                None => codec.refuse(PROVIDER@ + " event referenced an unknown live turn UUID"@),
                Some(entry) => if entry.phase is AwaitingQueue && state == "queued"@ {
                    (
                        codec.with_turn(TurnEntryView { phase: TurnPhase::Queued, ..entry }),
                        Ok(seq![TargetLiveObservationView::TurnQueued { turn_id }]),
                    )
                } else if entry.phase is Queued && state == "started"@ {
                    (
                        codec.with_turn(TurnEntryView { phase: TurnPhase::Started, ..entry }),
                        Ok(seq![TargetLiveObservationView::TurnStarted { turn_id }]),
                    )
                } else if entry.phase is ResultObserved && state == "completed"@ {
                    match entry.result {
                        None => codec.refuse(
                            PROVIDER@ + " completed a live turn without a matching result"@,
                        ),
                        Some(result) => (
                            codec.with_turn(TurnEntryView { phase: TurnPhase::Completed, ..entry }),
                            Ok(
                                seq![TargetLiveObservationView::TurnCompleted { turn_id, result }],
                            ),
                        ),
                    }
                } else if state == "queued"@ || state == "started"@ || state == "completed"@ {
                    codec.refuse(lifecycle_contradiction(state, turn_id))
                } else {
                    codec.refuse(PROVIDER@ + " lifecycle state is unsupported: "@ + state)
                },
            }
        },
    }
}

/// The refusal of a turn event before the provider has said who it is.
pub open spec fn uninitialized() -> Seq<char> {
    PROVIDER@ + " emitted a live turn event before exact initialization"@
}

/// A replayed prompt acknowledges its turn while the turn is queued or started.
pub open spec fn accept_replay(
    codec: CodecView,
    turn: Result<TargetTurnId, Seq<char>>,
    prompt: Result<Seq<char>, Seq<char>>,
) -> Accepted {
    match (turn, prompt) {
        (Err(message), _) => codec.refuse(message),
        (_, Err(message)) => codec.refuse(message),
        (Ok(turn_id), Ok(prompt)) => match lookup(codec.turns, turn_id) {
            None => codec.refuse(PROVIDER@ + " event referenced an unknown live turn UUID"@),
            Some(entry) => if prompt != entry.turn.prompt {
                codec.refuse(PROVIDER@ + " replayed user prompt differed from the admitted turn"@)
            } else if entry.phase is Queued || entry.phase is Started {
                (codec, Ok(seq![TargetLiveObservationView::TurnAcknowledged { turn_id }]))
            } else {
                codec.refuse(PROVIDER@ + " replayed user prompt outside the turn lifecycle"@)
            },
        },
    }
}

/// A tool result has an identity of its own and belongs to the one started turn.
pub open spec fn accept_tool_result(
    codec: CodecView,
    turn: Result<TargetTurnId, Seq<char>>,
    content: Result<(), Seq<char>>,
) -> Accepted {
    match turn {
        Err(message) => codec.refuse(message),
        Ok(provider_uuid) => if codec.turns.contains_key(provider_uuid) {
            codec.refuse(PROVIDER@ + " tool result reused an admitted caller turn UUID"@)
        } else {
            match (codec.sole_started(), content) {
                (Err(message), _) => codec.refuse(message),
                (_, Err(message)) => codec.refuse(message),
                (Ok(_), Ok(())) => codec.silent(),
            }
        },
    }
}

/// A text delta belongs to the one started turn; an empty one is not observed.
pub open spec fn accept_delta(codec: CodecView, text: Result<Seq<char>, Seq<char>>) -> Accepted {
    match (codec.sole_started(), text) {
        (Err(message), _) => codec.refuse(message),
        (_, Err(message)) => codec.refuse(message),
        (Ok(turn_id), Ok(text)) => if text.len() == 0 {
            codec.silent()
        } else {
            (codec, Ok(seq![TargetLiveObservationView::AssistantTextDelta { turn_id, text }]))
        },
    }
}

/// A result belongs to the one started turn: a success is kept until the turn completes, a failure
/// is the failure of the turn.
pub open spec fn accept_result(
    codec: CodecView,
    is_error: Option<bool>,
    text: Option<Seq<char>>,
) -> Accepted {
    match codec.sole_started() {
        Err(message) => codec.refuse(message),
        Ok(turn_id) => match (is_error, text) {
            (None, _) => codec.refuse(PROVIDER@ + " result omitted is_error"@),
            (Some(false), Some(text)) => (
                codec.with_turn(
                    TurnEntryView {
                        phase: TurnPhase::ResultObserved,
                        result: Some(text),
                        ..codec.turns[turn_id]
                    },
                ),
                Ok(Seq::empty()),
            ),
            (Some(false), None) => codec.refuse(PROVIDER@ + " result omitted result"@),
            (Some(true), Some(message)) => (
                codec,
                Err(CodecErrorView::Failed { turn_id, message }),
            ),
            (Some(true), None) => codec.refuse(PROVIDER@ + " failed result omitted result"@),
        },
    }
}

/// What one provider event does to a codec, and what it lets be observed.
pub open spec fn accepted(
    codec: CodecView,
    event: ProviderEventView,
    expected_model: Seq<char>,
    intended: TargetSessionId,
) -> Accepted {
    let guarded = |session: Result<TargetSessionId, Seq<char>>, name: Seq<char>, next: Accepted|
        if codec.initialized is None {
            codec.refuse(uninitialized())
        } else {
            match session_refusal(session, name, intended) {
                Some(message) => codec.refuse(message),
                None => next,
            }
        };
    match event {
        ProviderEventView::Init { session, model, version } => accept_init(
            codec,
            session,
            model,
            version,
            expected_model,
            intended,
        ),
        ProviderEventView::Lifecycle { session, turn, state } => accept_lifecycle(
            codec,
            session,
            turn,
            state,
            intended,
        ),
        ProviderEventView::ReplayedUser { session, turn, prompt } => guarded(
            session,
            "replayed user"@,
            accept_replay(codec, turn, prompt),
        ),
        ProviderEventView::ToolResult { session, turn, content } => guarded(
            session,
            "replayed user"@,
            accept_tool_result(codec, turn, content),
        ),
        ProviderEventView::UnclassifiedUser { session } => guarded(
            session,
            "replayed user"@,
            codec.refuse(
                PROVIDER@ + " user event is neither an exact caller replay nor a provider tool result"@,
            ),
        ),
        ProviderEventView::TextDelta { session, text } => guarded(
            session,
            "partial assistant"@,
            accept_delta(codec, text),
        ),
        ProviderEventView::Assistant { session } => guarded(
            session,
            "assistant"@,
            match codec.sole_started() {
                Err(message) => codec.refuse(message),
                Ok(_) => codec.silent(),
            },
        ),
        ProviderEventView::TurnResult { session, is_error, result } => guarded(
            session,
            "result"@,
            accept_result(codec, is_error, result),
        ),
        ProviderEventView::Ignored => codec.silent(),
    }
}

/// What one line of output does to a codec.
pub open spec fn observed_line(
    codec: CodecView,
    parsed: Result<JsonView, Seq<char>>,
    expected_model: Seq<char>,
    intended: TargetSessionId,
) -> Accepted {
    match parsed {
        Err(message) => codec.refuse(PROVIDER@ + " emitted invalid structured JSON: "@ + message),
        Ok(event) => accepted(codec, provider_event(event), expected_model, intended),
    }
}

/// The content of what a codec answers.
pub open spec fn codec_answer(answer: Result<Vec<TargetLiveObservation>, CodecError>) -> Result<
    Seq<TargetLiveObservationView>,
    CodecErrorView,
> {
    match answer {
        Ok(observations) => Ok(views(observations@)),
        Err(error) => Err(error@),
    }
}

spec fn turn_key() -> spec_fn(TurnEntryView) -> TargetTurnId {
    |entry: TurnEntryView| entry.turn.turn_id
}

/// The state of one live conversation as its structured output shows it.
pub struct Codec {
    initialized: Option<Initialization>,
    turns: Vec<TurnEntry>,
}

impl View for Codec {
    type V = CodecView;

    closed spec fn view(&self) -> CodecView {
        CodecView {
            initialized: optional(self.initialized),
            turns: keyed(views(self.turns@), turn_key()),
        }
    }
}

/// Nothing to observe.
fn silence() -> (answer: Result<Vec<TargetLiveObservation>, CodecError>)
    ensures
        codec_answer(answer) == Ok::<_, CodecErrorView>(Seq::<TargetLiveObservationView>::empty()),
{
    let none: Vec<TargetLiveObservation> = Vec::new();
    proof {
        assert(views(none@) =~= Seq::<TargetLiveObservationView>::empty());
    }
    Ok(none)
}

/// One observation.
fn single(observation: TargetLiveObservation) -> (answer: Result<
    Vec<TargetLiveObservation>,
    CodecError,
>)
    ensures
        codec_answer(answer) == Ok::<_, CodecErrorView>(seq![observation@]),
{
    let mut one: Vec<TargetLiveObservation> = Vec::new();
    one.push(observation);
    proof {
        assert(views(one@) =~= seq![observation@]);
    }
    Ok(one)
}

/// A refusal.
fn refusal(message: String) -> (answer: Result<Vec<TargetLiveObservation>, CodecError>)
    ensures
        codec_answer(answer) == Err::<Seq<TargetLiveObservationView>, _>(
            CodecErrorView::Indeterminate(message@),
        ),
{
    Err(CodecError::Indeterminate(message))
}

/// The mismatch of two sessions, in words.
fn mismatch(name: &str, intended: TargetSessionId, observed: TargetSessionId) -> (text: String)
    ensures
        text@ == session_mismatch(name@, intended, observed),
{
    let mut text = joined3(PROVIDER, " ", name);
    text.append(" session mismatch: intended ");
    text.append(crate::identifier::display_uuid(intended.0).as_str());
    text.append("; observed ");
    text.append(crate::identifier::display_uuid(observed.0).as_str());
    text
}

/// Why a session does not stand for the intended one, if it does not.
fn validate_session(
    session: &Result<TargetSessionId, String>,
    name: &str,
    intended: TargetSessionId,
) -> (refusal: Option<String>)
    ensures
        optional(refusal) == session_refusal(told(*session), name@, intended),
{
    match session {
        Err(message) => Some(message.clone()),
        Ok(observed) => {
            if *observed == intended {
                None
            } else {
                Some(mismatch(name, intended, *observed))
            }
        },
    }
}

impl Codec {
    /// Whether no turn is entered twice.
    pub closed spec fn well_formed(&self) -> bool {
        distinct(views(self.turns@), turn_key())
    }

    /// A codec that has seen nothing.
    pub fn new() -> (codec: Codec)
        ensures
            codec.well_formed(),
            codec@ == CodecView::empty(),
    {
        let codec = Codec { initialized: None, turns: Vec::new() };
        proof {
            assert(codec@.turns =~= CodecView::empty().turns);
        }
        codec
    }

    /// The place of a turn.
    fn turn_index(&self, turn_id: TargetTurnId) -> (found: Option<usize>)
        requires
            self.well_formed(),
        ensures
            match found {
                Some(index) => index < self.turns@.len() && self.turns@[index as int]@.turn.turn_id
                    == turn_id && lookup(self@.turns, turn_id) == Some(
                    self.turns@[index as int]@,
                ),
                None => lookup(self@.turns, turn_id) == None::<TurnEntryView>,
            },
    {
        let ghost rows = views(self.turns@);
        let mut index: usize = 0;
        while index < self.turns.len()
            invariant
                index <= self.turns@.len(),
                rows == views(self.turns@),
                self.well_formed(),
                forall|i: int| 0 <= i < index ==> turn_key()(#[trigger] rows[i]) != turn_id,
            decreases self.turns@.len() - index,
        {
            proof {
                assert(rows[index as int] == self.turns@[index as int]@);
            }
            if self.turns[index].turn.turn_id == turn_id {
                proof {
                    lemma_row(rows, turn_key(), index as int);
                }
                return Some(index);
            }
            index = index + 1;
        }
        proof {
            lemma_absent(rows, turn_key(), turn_id);
        }
        None
    }

    /// Rewrites the turn at a place.
    fn set_turn(&mut self, index: usize, entry: TurnEntry)
        requires
            old(self).well_formed(),
            index < old(self).turns@.len(),
            old(self).turns@[index as int]@.turn.turn_id == entry@.turn.turn_id,
        ensures
            final(self).well_formed(),
            final(self)@ == old(self)@.with_turn(entry@),
    {
        let ghost rows = views(self.turns@);
        proof {
            lemma_update(rows, turn_key(), index as int, entry@);
            assert(views(self.turns@.update(index as int, entry)) =~= rows.update(
                index as int,
                entry@,
            ));
        }
        self.turns.set(index, entry);
    }

    /// Enters a turn that is written to the provider. One that was already entered is refused, and
    /// starts over.
    pub fn register_turn(&mut self, turn: TargetLiveTurn) -> (registered: Result<(), CodecError>)
        requires
            old(self).well_formed(),
        ensures
            final(self).well_formed(),
            final(self)@ == old(self)@.with_turn(
                TurnEntryView { turn: turn@, phase: TurnPhase::AwaitingQueue, result: None },
            ),
            match registered {
                Ok(()) => !old(self)@.turns.contains_key(turn@.turn_id),
                Err(error) => old(self)@.turns.contains_key(turn@.turn_id) && error@
                    == CodecErrorView::Indeterminate(
                    "provider input reported a duplicate turn UUID"@,
                ),
            },
    {
        let found = self.turn_index(turn.turn_id);
        let entry = TurnEntry { turn, phase: TurnPhase::AwaitingQueue, result: None };
        match found {
            Some(index) => {
                self.set_turn(index, entry);
                Err(
                    CodecError::Indeterminate(
                        "provider input reported a duplicate turn UUID".to_owned(),
                    ),
                )
            },
            None => {
                let ghost rows = views(self.turns@);
                proof {
                    lemma_push(rows, turn_key(), entry@);
                    assert(views(self.turns@.push(entry)) =~= rows.push(entry@));
                }
                self.turns.push(entry);
                Ok(())
            },
        }
    }

    /// Whether every turn is completed.
    pub fn all_completed(&self) -> (done: bool)
        requires
            self.well_formed(),
        ensures
            done == self@.all_done(),
    {
        let ghost rows = views(self.turns@);
        let mut index: usize = 0;
        while index < self.turns.len()
            invariant
                index <= self.turns@.len(),
                rows == views(self.turns@),
                self.well_formed(),
                forall|i: int| 0 <= i < index ==> (#[trigger] rows[i]).phase is Completed,
            decreases self.turns@.len() - index,
        {
            proof {
                assert(rows[index as int] == self.turns@[index as int]@);
            }
            if self.turns[index].phase != TurnPhase::Completed {
                proof {
                    lemma_row(rows, turn_key(), index as int);
                    assert(self@.turns.contains_key(rows[index as int].turn.turn_id));
                }
                return false;
            }
            index = index + 1;
        }
        proof {
            assert forall|turn_id: TargetTurnId| #[trigger]
                self@.turns.contains_key(turn_id) implies self@.turns[turn_id].phase is Completed by {
                lemma_present(rows, turn_key(), turn_id);
            }
        }
        true
    }

    /// Whether some turn is active.
    fn has_active_turn(&self) -> (active: bool)
        requires
            self.well_formed(),
        ensures
            active == self@.has_active(),
    {
        let ghost rows = views(self.turns@);
        let mut index: usize = 0;
        while index < self.turns.len()
            invariant
                index <= self.turns@.len(),
                rows == views(self.turns@),
                self.well_formed(),
                forall|i: int|
                    0 <= i < index ==> !((#[trigger] rows[i]).phase is Started
                        || rows[i].phase is ResultObserved),
            decreases self.turns@.len() - index,
        {
            proof {
                assert(rows[index as int] == self.turns@[index as int]@);
            }
            if matches!(self.turns[index].phase, TurnPhase::Started | TurnPhase::ResultObserved) {
                proof {
                    lemma_row(rows, turn_key(), index as int);
                    assert(self@.active(rows[index as int].turn.turn_id));
                }
                return true;
            }
            index = index + 1;
        }
        proof {
            if self@.has_active() {
                let turn_id = choose|turn_id: TargetTurnId| #[trigger] self@.active(turn_id);
                lemma_present(rows, turn_key(), turn_id);
            }
        }
        false
    }

    /// The one turn the provider works on.
    fn unique_started_turn(&self) -> (turn: Result<TargetTurnId, String>)
        requires
            self.well_formed(),
        ensures
            told(turn) == self@.sole_started(),
    {
        let ghost rows = views(self.turns@);
        let mut active: Option<TargetTurnId> = None;
        let mut index: usize = 0;
        while index < self.turns.len()
            invariant
                index <= self.turns@.len(),
                rows == views(self.turns@),
                self.well_formed(),
                match active {
                    None => forall|i: int| 0 <= i < index ==> !((#[trigger] rows[i]).phase is Started),
                    Some(turn_id) => self@.started(turn_id) && forall|i: int|
                        0 <= i < index && (#[trigger] rows[i]).phase is Started
                            ==> rows[i].turn.turn_id == turn_id,
                },
                active matches Some(turn_id) ==> exists|i: int|
                    0 <= i < index && (#[trigger] rows[i]).turn.turn_id == turn_id,
            decreases self.turns@.len() - index,
        {
            proof {
                assert(rows[index as int] == self.turns@[index as int]@);
            }
            if self.turns[index].phase == TurnPhase::Started {
                let turn_id = self.turns[index].turn.turn_id;
                proof {
                    lemma_row(rows, turn_key(), index as int);
                    assert(self@.started(turn_id));
                }
                match active {
                    Some(earlier) => {
                        proof {
                            let i = choose|i: int|
                                0 <= i < index && (#[trigger] rows[i]).turn.turn_id == earlier;
                            if earlier == turn_id {
                                assert(turn_key()(rows[i]) == turn_key()(rows[index as int]));
                            }
                            assert(self@.started(earlier) && self@.started(turn_id));
                        }
                        return Err(
                            joined(PROVIDER, " provider event had more than one started turn"),
                        );
                    },
                    None => {
                        active = Some(turn_id);
                    },
                }
            }
            index = index + 1;
        }
        proof {
            assert forall|turn_id: TargetTurnId| #[trigger] self@.started(turn_id) implies active
                == Some(turn_id) by {
                lemma_present(rows, turn_key(), turn_id);
            }
        }
        match active {
            Some(turn_id) => Ok(turn_id),
            None => Err(joined(PROVIDER, " provider event had no uniquely started turn")),
        }
    }

    fn init(
        &mut self,
        session: &Result<TargetSessionId, String>,
        model: &Result<String, String>,
        version: &Option<String>,
        expected_model: &str,
        intended: TargetSessionId,
    ) -> (answer: Result<Vec<TargetLiveObservation>, CodecError>)
        requires
            old(self).well_formed(),
        ensures
            final(self).well_formed(),
            (final(self)@, codec_answer(answer)) == accept_init(
                old(self)@,
                told(*session),
                told(*model),
                optional(*version),
                expected_model@,
                intended,
            ),
    {
        let session_id = match session {
            Ok(session_id) => *session_id,
            Err(message) => {
                return refusal(message.clone());
            },
        };
        let model = match model {
            Ok(model) => model,
            Err(message) => {
                return refusal(message.clone());
            },
        };
        if session_id != intended {
            return refusal(mismatch("init", intended, session_id));
        }
        if !same_text(model.as_str(), expected_model) {
            let mut message = joined3(PROVIDER, " init model mismatch: intended ", expected_model);
            message.append("; observed ");
            message.append(model.as_str());
            return refusal(message);
        }
        match &self.initialized {
            Some(prior) => {
                if !(prior.session_id == session_id && prior.model == *model && same_optional_text(
                    &prior.version,
                    version,
                )) {
                    return refusal(
                        joined(PROVIDER, " init contradicted prior live conversation identity"),
                    );
                }
            },
            None => {
                self.initialized = Some(
                    Initialization {
                        session_id,
                        model: model.clone(),
                        version: version.clone(),
                    },
                );
            },
        }
        single(
            TargetLiveObservation::Initialized {
                session_id,
                model: model.clone(),
                version: version.clone(),
            },
        )
    }

    fn lifecycle(
        &mut self,
        session: &Result<TargetSessionId, String>,
        turn: &Result<TargetTurnId, String>,
        state: &Result<String, String>,
        intended: TargetSessionId,
    ) -> (answer: Result<Vec<TargetLiveObservation>, CodecError>)
        requires
            old(self).well_formed(),
        ensures
            final(self).well_formed(),
            (final(self)@, codec_answer(answer)) == accept_lifecycle(
                old(self)@,
                told(*session),
                told(*turn),
                told(*state),
                intended,
            ),
    {
        match validate_session(session, "command_lifecycle", intended) {
            Some(message) => {
                return refusal(message);
            },
            None => {},
        }
        let turn_id = match turn {
            Ok(turn_id) => *turn_id,
            Err(message) => {
                return refusal(message.clone());
            },
        };
        let state = match state {
            Ok(state) => state,
            Err(message) => {
                return refusal(message.clone());
            },
        };
        let queued = same_text(state.as_str(), "queued");
        let started = same_text(state.as_str(), "started");
        let completed = same_text(state.as_str(), "completed");
        if started && self.has_active_turn() {
            return refusal(joined(PROVIDER, " started a live turn while another turn was active"));
        }
        let index = match self.turn_index(turn_id) {
            Some(index) => index,
            None => {
                return refusal(joined(PROVIDER, " event referenced an unknown live turn UUID"));
            },
        };
        let mut entry = self.turns[index].clone();
        if entry.phase == TurnPhase::AwaitingQueue && queued {
            entry.phase = TurnPhase::Queued;
            self.set_turn(index, entry);
            return single(TargetLiveObservation::TurnQueued { turn_id });
        }
        if entry.phase == TurnPhase::Queued && started {
            entry.phase = TurnPhase::Started;
            self.set_turn(index, entry);
            return single(TargetLiveObservation::TurnStarted { turn_id });
        }
        if entry.phase == TurnPhase::ResultObserved && completed {
            let result = match &entry.result {
                Some(result) => result.clone(),
                None => {
                    return refusal(
                        joined(PROVIDER, " completed a live turn without a matching result"),
                    );
                },
            };
            entry.phase = TurnPhase::Completed;
            self.set_turn(index, entry);
            return single(TargetLiveObservation::TurnCompleted { turn_id, result });
        }
        if queued || started || completed {
            let mut message = joined3(PROVIDER, " lifecycle ", state.as_str());
            message.append(" contradicted turn TargetTurnId(");
            message.append(crate::identifier::display_uuid(turn_id.0).as_str());
            message.append(") phase");
            return refusal(message);
        }
        refusal(joined3(PROVIDER, " lifecycle state is unsupported: ", state.as_str()))
    }

    fn replayed_user(&self, turn: &Result<TargetTurnId, String>, prompt: &Result<String, String>) -> (
    answer: Result<Vec<TargetLiveObservation>, CodecError>)
        requires
            self.well_formed(),
        ensures
            (self@, codec_answer(answer)) == accept_replay(self@, told(*turn), told(*prompt)),
    {
        let turn_id = match turn {
            Ok(turn_id) => *turn_id,
            Err(message) => {
                return refusal(message.clone());
            },
        };
        let prompt = match prompt {
            Ok(prompt) => prompt,
            Err(message) => {
                return refusal(message.clone());
            },
        };
        let index = match self.turn_index(turn_id) {
            Some(index) => index,
            None => {
                return refusal(joined(PROVIDER, " event referenced an unknown live turn UUID"));
            },
        };
        let entry = &self.turns[index];
        if !(*prompt == entry.turn.prompt) {
            return refusal(
                joined(PROVIDER, " replayed user prompt differed from the admitted turn"),
            );
        }
        match entry.phase {
            TurnPhase::Queued | TurnPhase::Started => single(
                TargetLiveObservation::TurnAcknowledged { turn_id },
            ),
            TurnPhase::AwaitingQueue | TurnPhase::ResultObserved | TurnPhase::Completed => refusal(
                joined(PROVIDER, " replayed user prompt outside the turn lifecycle"),
            ),
        }
    }

    fn tool_result(&self, turn: &Result<TargetTurnId, String>, content: &Result<(), String>) -> (
    answer: Result<Vec<TargetLiveObservation>, CodecError>)
        requires
            self.well_formed(),
        ensures
            (self@, codec_answer(answer)) == accept_tool_result(self@, told(*turn), told(*content)),
    {
        let provider_uuid = match turn {
            Ok(turn_id) => *turn_id,
            Err(message) => {
                return refusal(message.clone());
            },
        };
        if self.turn_index(provider_uuid).is_some() {
            return refusal(
                joined(PROVIDER, " tool result reused an admitted caller turn UUID"),
            );
        }
        match self.unique_started_turn() {
            Ok(_) => {},
            Err(message) => {
                return refusal(message);
            },
        }
        match content {
            Ok(()) => silence(),
            Err(message) => refusal(message.clone()),
        }
    }

    fn text_delta(&self, text: &Result<String, String>) -> (answer: Result<
        Vec<TargetLiveObservation>,
        CodecError,
    >)
        requires
            self.well_formed(),
        ensures
            (self@, codec_answer(answer)) == accept_delta(self@, told(*text)),
    {
        let turn_id = match self.unique_started_turn() {
            Ok(turn_id) => turn_id,
            Err(message) => {
                return refusal(message);
            },
        };
        match text {
            Err(message) => refusal(message.clone()),
            Ok(text) => {
                if text.as_str().is_empty() {
                    return silence();
                }
                single(TargetLiveObservation::AssistantTextDelta { turn_id, text: text.clone() })
            },
        }
    }

    fn result(&mut self, is_error: Option<bool>, text: &Option<String>) -> (answer: Result<
        Vec<TargetLiveObservation>,
        CodecError,
    >)
        requires
            old(self).well_formed(),
        ensures
            final(self).well_formed(),
            (final(self)@, codec_answer(answer)) == accept_result(
                old(self)@,
                is_error,
                optional(*text),
            ),
    {
        let turn_id = match self.unique_started_turn() {
            Ok(turn_id) => turn_id,
            Err(message) => {
                return refusal(message);
            },
        };
        proof {
            assert(self@.started(turn_id));
        }
        match (is_error, text) {
            (None, _) => refusal(joined(PROVIDER, " result omitted is_error")),
            (Some(false), Some(text)) => {
                match self.turn_index(turn_id) {
                    Some(index) => {
                        let mut entry = self.turns[index].clone();
                        entry.phase = TurnPhase::ResultObserved;
                        entry.result = Some(text.clone());
                        self.set_turn(index, entry);
                    },
                    None => {},
                }
                silence()
            },
            (Some(false), None) => refusal(joined(PROVIDER, " result omitted result")),
            (Some(true), Some(message)) => Err(
                CodecError::Failed { turn_id, message: message.clone() },
            ),
            (Some(true), None) => refusal(joined(PROVIDER, " failed result omitted result")),
        }
    }

    /// Why an event of a turn is refused before it is looked at, if it is.
    fn guard(
        &self,
        session: &Result<TargetSessionId, String>,
        name: &str,
        intended: TargetSessionId,
    ) -> (refusal: Option<String>)
        ensures
            optional(refusal) == (if self@.initialized is None {
                Some(uninitialized())
            } else {
                session_refusal(told(*session), name@, intended)
            }),
    {
        if self.initialized.is_none() {
            return Some(
                joined(PROVIDER, " emitted a live turn event before exact initialization"),
            );
        }
        validate_session(session, name, intended)
    }

    /// Takes one provider event.
    pub fn accept(
        &mut self,
        event: &ProviderEvent,
        expected_model: &str,
        intended: TargetSessionId,
    ) -> (answer: Result<Vec<TargetLiveObservation>, CodecError>)
        requires
            old(self).well_formed(),
        ensures
            final(self).well_formed(),
            (final(self)@, codec_answer(answer)) == accepted(
                old(self)@,
                event@,
                expected_model@,
                intended,
            ),
    {
        match event {
            ProviderEvent::Init { session, model, version } => self.init(
                session,
                model,
                version,
                expected_model,
                intended,
            ),
            ProviderEvent::Lifecycle { session, turn, state } => self.lifecycle(
                session,
                turn,
                state,
                intended,
            ),
            ProviderEvent::ReplayedUser { session, turn, prompt } => match self.guard(
                session,
                "replayed user",
                intended,
            ) {
                Some(message) => refusal(message),
                None => self.replayed_user(turn, prompt),
            },
            ProviderEvent::ToolResult { session, turn, content } => match self.guard(
                session,
                "replayed user",
                intended,
            ) {
                Some(message) => refusal(message),
                None => self.tool_result(turn, content),
            },
            ProviderEvent::UnclassifiedUser { session } => match self.guard(
                session,
                "replayed user",
                intended,
            ) {
                Some(message) => refusal(message),
                None => refusal(
                    joined(PROVIDER, " user event is neither an exact caller replay nor a provider tool result"),
                ),
            },
            ProviderEvent::TextDelta { session, text } => match self.guard(
                session,
                "partial assistant",
                intended,
            ) {
                Some(message) => refusal(message),
                None => self.text_delta(text),
            },
            ProviderEvent::Assistant { session } => match self.guard(
                session,
                "assistant",
                intended,
            ) {
                Some(message) => refusal(message),
                None => match self.unique_started_turn() {
                    Ok(_) => silence(),
                    Err(message) => refusal(message),
                },
            },
            ProviderEvent::TurnResult { session, is_error, result } => match self.guard(
                session,
                "result",
                intended,
            ) {
                Some(message) => refusal(message),
                None => self.result(*is_error, result),
            },
            ProviderEvent::Ignored => silence(),
        }
    }

    /// Takes one line of structured output.
    pub fn observe(&mut self, line: &str, expected_model: &str, intended: TargetSessionId) -> (
    answer: Result<Vec<TargetLiveObservation>, CodecError>)
        requires
            old(self).well_formed(),
        ensures
            final(self).well_formed(),
            (final(self)@, codec_answer(answer)) == observed_line(
                old(self)@,
                json_parsed(line@),
                expected_model@,
                intended,
            ),
    {
        match parse_json(line) {
            Ok(event) => {
                let read = read_event(&event);
                self.accept(&read, expected_model, intended)
            },
            Err(message) => refusal(
                joined3(PROVIDER, " emitted invalid structured JSON: ", message.as_str()),
            ),
        }
    }
}

} // verus!
