//! Admits the turns of one live child, and classifies how the child ended.

use vstd::prelude::*;
use vstd::string::*;

use crate::contract::target::{
    TargetLiveObservation, TargetLiveObservationView, TargetLiveTurn, TargetLiveTurnView,
    TargetSessionId, TargetTurnId,
};
use crate::identifier::{display_uuid, uuid_text};
use crate::keyed::{distinct, keyed, lemma_absent, lemma_present, lemma_push, lemma_row, lookup};
use crate::target::child::{
    failures_among, failures_joined, join_failures, told_all, ChildExitEvidence,
};
use crate::json::json_parsed;
use crate::target::conversation_codec::{
    observed_line, Codec, CodecError, CodecErrorView, CodecView, TurnEntryView, TurnPhase,
};
use crate::target::conversation_input::{WriterReport, WriterReportView};
use crate::text::{joined, joined3, optional, told, views};

verus! {

/// How the runtime of a live child is cleaned up.
#[derive(Clone, Copy, Debug, PartialEq, Eq, Structural)]
pub enum CleanupMode {
    /// The child may still run: it is terminated and waited for.
    Terminate,
    /// The exit of the child was observed.
    ObservedExit,
}

/// What the observer of a live child does next.
#[derive(Debug, PartialEq, Eq)]
pub enum ObserverStep {
    /// Consume what the writer reports and what the child writes.
    Consume,
    /// See whether the child has exited.
    CheckChild,
    /// Consume what the child wrote before it exited.
    Drain,
    /// Publish the failure of a turn.
    PublishFailedTurn { turn_id: TargetTurnId, message: String, mode: CleanupMode },
    /// Clean up the runtime.
    CleanUp { mode: CleanupMode, terminal: TargetLiveObservation },
    /// Publish how the conversation ended.
    Publish(TargetLiveObservation),
    /// The observation is over.
    Ended(Result<(), String>),
}

/// The mathematical content of [`ObserverStep`].
#[verifier::ext_equal]
pub enum ObserverStepView {
    Consume,
    CheckChild,
    Drain,
    PublishFailedTurn { turn_id: TargetTurnId, message: Seq<char>, mode: CleanupMode },
    CleanUp { mode: CleanupMode, terminal: TargetLiveObservationView },
    Publish(TargetLiveObservationView),
    Ended(Result<(), Seq<char>>),
}

impl View for ObserverStep {
    type V = ObserverStepView;

    open spec fn view(&self) -> ObserverStepView {
        match *self {
            ObserverStep::Consume => ObserverStepView::Consume,
            ObserverStep::CheckChild => ObserverStepView::CheckChild,
            ObserverStep::Drain => ObserverStepView::Drain,
            ObserverStep::PublishFailedTurn { turn_id, message, mode } => ObserverStepView::PublishFailedTurn {
                turn_id,
                message: message@,
                mode,
            },
            ObserverStep::CleanUp { mode, terminal } => ObserverStepView::CleanUp {
                mode,
                terminal: terminal@,
            },
            ObserverStep::Publish(value) => ObserverStepView::Publish(value@),
            ObserverStep::Ended(value) => ObserverStepView::Ended(told(value)),
        }
    }
}

/// What became of a step.
#[derive(Debug, PartialEq, Eq)]
pub enum ObserverEvent {
    PumpFailed(String),
    Consumed { refusal: Option<CodecError> },
    Running,
    Exited,
    Drained { success: bool },
    StatusFailed(String),
    Published { received: bool },
    CleanedUp { result: Result<(), String>, evidence: ChildExitEvidence },
}

/// The mathematical content of [`ObserverEvent`].
#[verifier::ext_equal]
pub enum ObserverEventView {
    PumpFailed(Seq<char>),
    Consumed { refusal: Option<CodecErrorView> },
    Running,
    Exited,
    Drained { success: bool },
    StatusFailed(Seq<char>),
    Published { received: bool },
    CleanedUp { result: Result<(), Seq<char>>, evidence: ChildExitEvidence },
}

impl View for ObserverEvent {
    type V = ObserverEventView;

    open spec fn view(&self) -> ObserverEventView {
        match *self {
            ObserverEvent::PumpFailed(value) => ObserverEventView::PumpFailed(value@),
            ObserverEvent::Consumed { refusal } => ObserverEventView::Consumed {
                refusal: optional(refusal),
            },
            ObserverEvent::Running => ObserverEventView::Running,
            ObserverEvent::Exited => ObserverEventView::Exited,
            ObserverEvent::Drained { success } => ObserverEventView::Drained {
                success,
            },
            ObserverEvent::StatusFailed(value) => ObserverEventView::StatusFailed(value@),
            ObserverEvent::Published { received } => ObserverEventView::Published {
                received,
            },
            ObserverEvent::CleanedUp { result, evidence } => ObserverEventView::CleanedUp {
                result: told(result),
                evidence,
            },
        }
    }
}

/// The mathematical content of [`LiveAdmission`].
#[verifier::ext_equal]
pub struct LiveAdmissionView {
    pub turns: Map<TargetTurnId, TargetLiveTurnView>,
    pub graceful_through: Option<u64>,
    pub broken: bool,
    pub cancelled: bool,
}

impl LiveAdmissionView {
    /// Whether a turn was admitted at the position.
    pub open spec fn position_taken(self, position: u64) -> bool {
        exists|turn_id: TargetTurnId| #[trigger]
            self.turns.contains_key(turn_id) && self.turns[turn_id].position == position
    }

    /// The turn that was admitted at the position.
    pub open spec fn position_owner(self, position: u64) -> TargetTurnId {
        choose|turn_id: TargetTurnId| #[trigger]
            self.turns.contains_key(turn_id) && self.turns[turn_id].position == position
    }

    /// Whether every turn stands under its own identity and no position was admitted twice.
    pub open spec fn sound(self) -> bool {
        &&& forall|turn_id: TargetTurnId| #[trigger]
            self.turns.contains_key(turn_id) ==> self.turns[turn_id].turn_id == turn_id
        &&& forall|left: TargetTurnId, right: TargetTurnId|
            #![trigger self.turns.contains_key(left), self.turns.contains_key(right)]
            self.turns.contains_key(left) && self.turns.contains_key(right)
                && self.turns[left].position == self.turns[right].position ==> left == right
    }

    /// What admitting a turn yields: whether it is new. The same turn again is not; another turn
    /// under its identity or at its position, and any turn that comes too late, is refused.
    pub open spec fn admitting(self, turn: TargetLiveTurnView) -> (
        LiveAdmissionView,
        Result<bool, Seq<char>>,
    ) {
        if self.broken {
            (self, Err("live input delivery is indeterminate"@))
        } else if self.turns.contains_key(turn.turn_id) {
            if self.turns[turn.turn_id] == turn {
                (self, Ok(false))
            } else {
                (self, Err("live turn UUID was reused with different content"@))
            }
        } else if self.position_taken(turn.position) {
            (
                self,
                Err(
                    "live turn position is already owned by TargetTurnId("@ + uuid_text(
                        self.position_owner(turn.position).0,
                    ) + ")"@,
                ),
            )
        } else if self.cancelled {
            (self, Err("live conversation was cancelled before turn delivery"@))
        } else if self.graceful_through is Some && turn.position > self.graceful_through->Some_0 {
            (self, Err("live conversation no longer admits turns beyond graceful close"@))
        } else {
            (
                LiveAdmissionView { turns: self.turns.insert(turn.turn_id, turn), ..self },
                Ok(true),
            )
        }
    }

    /// What a graceful close yields: whether it is new. It names one last position, and keeps it.
    pub open spec fn close(self, through_position: u64) -> (
        LiveAdmissionView,
        Result<bool, Seq<char>>,
    ) {
        if self.broken {
            (self, Err("live input delivery is indeterminate"@))
        } else if self.cancelled {
            (self, Err("live conversation was cancelled before graceful close"@))
        } else if through_position == 0 {
            (self, Err("graceful close position must start at one"@))
        } else {
            match self.graceful_through {
                Some(existing) => if existing == through_position {
                    (self, Ok(false))
                } else {
                    (self, Err("graceful close contradicted its durable admitted position"@))
                },
                None => (
                    LiveAdmissionView { graceful_through: Some(through_position), ..self },
                    Ok(true),
                ),
            }
        }
    }
}

spec fn turn_key() -> spec_fn(TargetLiveTurnView) -> TargetTurnId {
    |turn: TargetLiveTurnView| turn.turn_id
}

spec fn position_key() -> spec_fn(TargetLiveTurnView) -> u64 {
    |turn: TargetLiveTurnView| turn.position
}

/// The turns that were admitted to one live child, and whether more may come.
pub struct LiveAdmission {
    turns: Vec<TargetLiveTurn>,
    graceful_through: Option<u64>,
    broken: bool,
    cancelled: bool,
}

impl View for LiveAdmission {
    type V = LiveAdmissionView;

    closed spec fn view(&self) -> LiveAdmissionView {
        LiveAdmissionView {
            turns: keyed(views(self.turns@), turn_key()),
            graceful_through: self.graceful_through,
            broken: self.broken,
            cancelled: self.cancelled,
        }
    }
}

impl LiveAdmission {
    /// Whether no turn and no position was admitted twice.
    pub closed spec fn well_formed(&self) -> bool {
        &&& distinct(views(self.turns@), turn_key())
        &&& distinct(views(self.turns@), position_key())
    }

    /// A well-formed admission is sound.
    pub proof fn lemma_sound(&self)
        requires
            self.well_formed(),
        ensures
            self@.sound(),
    {
        let rows = views(self.turns@);
        assert forall|turn_id: TargetTurnId| #[trigger] self@.turns.contains_key(turn_id) implies {
            let at = crate::keyed::place(rows, turn_key(), turn_id);
            &&& 0 <= at < rows.len()
            &&& self@.turns[turn_id] == rows[at]
            &&& rows[at].turn_id == turn_id
        } by {
            lemma_present(rows, turn_key(), turn_id);
        }
        assert forall|left: TargetTurnId, right: TargetTurnId|
            #![trigger self@.turns.contains_key(left), self@.turns.contains_key(right)]
            self@.turns.contains_key(left) && self@.turns.contains_key(right)
                && self@.turns[left].position == self@.turns[right].position implies left
            == right by {
            let first = crate::keyed::place(rows, turn_key(), left);
            let second = crate::keyed::place(rows, turn_key(), right);
            assert(position_key()(rows[first]) == position_key()(rows[second]));
        }
    }

    /// An admission that begins with the first turn.
    pub fn new(first_turn: TargetLiveTurn) -> (admission: LiveAdmission)
        ensures
            admission.well_formed(),
            admission@ == (LiveAdmissionView {
                turns: Map::empty().insert(first_turn@.turn_id, first_turn@),
                graceful_through: None,
                broken: false,
                cancelled: false,
            }),
    {
        let mut turns: Vec<TargetLiveTurn> = Vec::new();
        let ghost none = views(turns@);
        proof {
            assert(none =~= Seq::empty());
            lemma_absent(none, turn_key(), first_turn@.turn_id);
            lemma_push(none, turn_key(), first_turn@);
            lemma_absent(none, position_key(), first_turn@.position);
            lemma_push(none, position_key(), first_turn@);
            assert(keyed(none, turn_key()) =~= Map::empty());
            assert(views(turns@.push(first_turn)) =~= none.push(first_turn@));
        }
        turns.push(first_turn);
        LiveAdmission { turns, graceful_through: None, broken: false, cancelled: false }
    }

    /// The admitted turn under an identity.
    fn turn(&self, turn_id: TargetTurnId) -> (found: Option<&TargetLiveTurn>)
        requires
            self.well_formed(),
        ensures
            optional(found) == lookup(self@.turns, turn_id),
    {
        let ghost rows = views(self.turns@);
        let mut index: usize = 0;
        while index < self.turns.len()
            invariant
                index <= self.turns@.len(),
                rows == views(self.turns@),
                self.well_formed(),
                forall|i: int| 0 <= i < index ==> turn_key()(#[trigger] rows[i]) != turn_id,
            decreases self.turns@.len() - index,
        {
            proof {
                assert(rows[index as int] == self.turns@[index as int]@);
            }
            if self.turns[index].turn_id == turn_id {
                proof {
                    lemma_row(rows, turn_key(), index as int);
                }
                return Some(&self.turns[index]);
            }
            index = index + 1;
        }
        proof {
            lemma_absent(rows, turn_key(), turn_id);
        }
        None
    }

    /// The turn that was admitted at a position.
    fn owner(&self, position: u64) -> (owner: Option<TargetTurnId>)
        requires
            self.well_formed(),
        ensures
            match owner {
                Some(turn_id) => self@.position_taken(position) && turn_id
                    == self@.position_owner(position),
                None => !self@.position_taken(position),
            },
    {
        let ghost rows = views(self.turns@);
        let mut index: usize = 0;
        while index < self.turns.len()
            invariant
                index <= self.turns@.len(),
                rows == views(self.turns@),
                self.well_formed(),
                forall|i: int| 0 <= i < index ==> (#[trigger] rows[i]).position != position,
            decreases self.turns@.len() - index,
        {
            proof {
                assert(rows[index as int] == self.turns@[index as int]@);
            }
            if self.turns[index].position == position {
                let turn_id = self.turns[index].turn_id;
                proof {
                    lemma_row(rows, turn_key(), index as int);
                    self.lemma_sound();
                    assert(self@.turns.contains_key(turn_id));
                }
                return Some(turn_id);
            }
            index = index + 1;
        }
        proof {
            if self@.position_taken(position) {
                let turn_id = self@.position_owner(position);
                lemma_present(rows, turn_key(), turn_id);
            }
        }
        None
    }

    /// Admits a turn, and tells whether it is new.
    pub fn admit_turn(&mut self, turn: TargetLiveTurn) -> (admitted: Result<bool, String>)
        requires
            old(self).well_formed(),
        ensures
            final(self).well_formed(),
            final(self)@ == old(self)@.admitting(turn@).0,
            told(admitted) == old(self)@.admitting(turn@).1,
    {
        if self.broken {
            return Err("live input delivery is indeterminate".to_owned());
        }
        match self.turn(turn.turn_id) {
            Some(existing) => {
                if existing.same(&turn) {
                    return Ok(false);
                }
                return Err("live turn UUID was reused with different content".to_owned());
            },
            None => {},
        }
        match self.owner(turn.position) {
            Some(owner) => {
                return Err(
                    joined3(
                        "live turn position is already owned by TargetTurnId(",
                        display_uuid(owner.0).as_str(),
                        ")",
                    ),
                );
            },
            None => {},
        }
        if self.cancelled {
            return Err("live conversation was cancelled before turn delivery".to_owned());
        }
        match self.graceful_through {
            Some(through_position) => {
                if turn.position > through_position {
                    return Err(
                        "live conversation no longer admits turns beyond graceful close".to_owned(),
                    );
                }
            },
            None => {},
        }
        let ghost rows = views(self.turns@);
        proof {
            lemma_push(rows, turn_key(), turn@);
            assert forall|i: int| 0 <= i < rows.len() implies position_key()(#[trigger] rows[i])
                != turn@.position by {
                lemma_row(rows, turn_key(), i);
                assert(self@.turns.contains_key(rows[i].turn_id));
            }
            lemma_absent(rows, position_key(), turn@.position);
            lemma_push(rows, position_key(), turn@);
            assert(views(self.turns@.push(turn)) =~= rows.push(turn@));
        }
        self.turns.push(turn);
        Ok(true)
    }

    /// Closes gracefully after a position, and tells whether that is new.
    pub fn close(&mut self, through_position: u64) -> (closed: Result<bool, String>)
        requires
            old(self).well_formed(),
        ensures
            final(self).well_formed(),
            final(self)@ == old(self)@.close(through_position).0,
            told(closed) == old(self)@.close(through_position).1,
    {
        if self.broken {
            return Err("live input delivery is indeterminate".to_owned());
        }
        if self.cancelled {
            return Err("live conversation was cancelled before graceful close".to_owned());
        }
        if through_position == 0 {
            return Err("graceful close position must start at one".to_owned());
        }
        match self.graceful_through {
            Some(existing) => {
                if existing == through_position {
                    Ok(false)
                } else {
                    Err("graceful close contradicted its durable admitted position".to_owned())
                }
            },
            None => {
                self.graceful_through = Some(through_position);
                Ok(true)
            },
        }
    }

    /// Records that an admitted turn may not have reached the writer.
    pub fn mark_broken(&mut self)
        requires
            old(self).well_formed(),
        ensures
            final(self).well_formed(),
            final(self)@ == (LiveAdmissionView { broken: true, ..old(self)@ }),
    {
        self.broken = true;
    }

    /// Tells what became of an admitted turn that was handed to the writer. One that did not arrive
    /// leaves the delivery in doubt for good.
    pub fn delivered(&mut self, received: bool) -> (result: Result<(), String>)
        requires
            old(self).well_formed(),
        ensures
            final(self).well_formed(),
            final(self)@ == (if received {
                old(self)@
            } else {
                LiveAdmissionView { broken: true, ..old(self)@ }
            }),
            told(result) == (if received {
                Ok(())
            } else {
                Err("live input writer stopped after accepting a turn"@)
            }),
    {
        if received {
            return Ok(());
        }
        self.mark_broken();
        Err("live input writer stopped after accepting a turn".to_owned())
    }

    /// Records the cancellation, and tells whether it is the first.
    pub fn cancel(&mut self) -> (first: bool)
        requires
            old(self).well_formed(),
        ensures
            final(self).well_formed(),
            final(self)@ == (LiveAdmissionView { cancelled: true, ..old(self)@ }),
            first == !old(self)@.cancelled,
    {
        let first = !self.cancelled;
        self.cancelled = true;
        first
    }

    /// Whether the conversation was cancelled.
    pub fn is_cancelled(&self) -> (cancelled: bool)
        ensures
            cancelled == self@.cancelled,
    {
        self.cancelled
    }

    /// Whether the conversation was closed gracefully.
    pub fn is_graceful(&self) -> (graceful: bool)
        ensures
            graceful == (self@.graceful_through is Some),
    {
        self.graceful_through.is_some()
    }
}

/// How a conversation ended whose child exited: a cancellation explains any exit, and only a
/// successful exit after a graceful close with every turn completed is a proper end.
pub open spec fn exit_observed(
    success: bool,
    cancelled: bool,
    graceful: bool,
    all_completed: bool,
) -> TargetLiveObservationView {
    if cancelled {
        TargetLiveObservationView::Cancelled
    } else if success && graceful && all_completed {
        TargetLiveObservationView::Exited
    } else {
        TargetLiveObservationView::Indeterminate(
            "direct live child exited before a graceful completed conversation"@,
        )
    }
}

/// How a conversation ended, after the cleanup: a failed cleanup takes the proof of the end, and an
/// exit that was not proven leaves a possible writer behind.
pub open spec fn ended_after_cleanup(
    terminal: TargetLiveObservationView,
    result: Result<(), Seq<char>>,
    evidence: ChildExitEvidence,
) -> TargetLiveObservationView {
    match result {
        Ok(()) => terminal,
        Err(message) => match evidence {
            ChildExitEvidence::Proven => TargetLiveObservationView::Indeterminate(
                "direct child exited but live runtime cleanup failed: "@ + message,
            ),
            ChildExitEvidence::Unproven => TargetLiveObservationView::UnclassifiedWriter(
                "live provider terminal classification lost direct-child cleanup proof: "@
                    + message,
            ),
        },
    }
}

/// What a refused event makes of the observation.
pub open spec fn consumption_refused(
    error: CodecErrorView,
    mode: CleanupMode,
) -> ObserverStepView {
    match error {
        CodecErrorView::Failed { turn_id, message } => ObserverStepView::PublishFailedTurn {
            turn_id,
            message,
            mode,
        },
        CodecErrorView::Indeterminate(message) => ObserverStepView::CleanUp {
            mode,
            terminal: TargetLiveObservationView::Indeterminate(message),
        },
    }
}

/// What the observer does after a step became what the event says. An event that does not belong to
/// the step changes nothing.
pub open spec fn observer_advanced(
    step: ObserverStepView,
    event: ObserverEventView,
    cancelled: bool,
    graceful: bool,
    all_completed: bool,
) -> ObserverStepView {
    match (step, event) {
        (ObserverStepView::Consume, ObserverEventView::PumpFailed(message)) =>
            ObserverStepView::CleanUp {
            mode: CleanupMode::Terminate,
            terminal: TargetLiveObservationView::Indeterminate(message),
        },
        (ObserverStepView::Consume, ObserverEventView::Consumed { refusal }) => match refusal {
            None => ObserverStepView::CheckChild,
            Some(error) => consumption_refused(error, CleanupMode::Terminate),
        },
        (ObserverStepView::CheckChild, ObserverEventView::Running) => ObserverStepView::Consume,
        (ObserverStepView::CheckChild, ObserverEventView::StatusFailed(message)) =>
            ObserverStepView::CleanUp {
            mode: CleanupMode::Terminate,
            terminal: TargetLiveObservationView::Indeterminate(message),
        },
        (ObserverStepView::CheckChild, ObserverEventView::Exited) => ObserverStepView::Drain,
        (ObserverStepView::Drain, ObserverEventView::Consumed { refusal: Some(error) }) =>
            consumption_refused(error, CleanupMode::ObservedExit),
        (ObserverStepView::Drain, ObserverEventView::Drained { success }) =>
            ObserverStepView::CleanUp {
            mode: CleanupMode::ObservedExit,
            terminal: exit_observed(success, cancelled, graceful, all_completed),
        },
        (
            ObserverStepView::PublishFailedTurn { turn_id, message, mode },
            ObserverEventView::Published { received },
        ) => if received {
            ObserverStepView::CleanUp { mode, terminal: TargetLiveObservationView::Failed(message) }
        } else {
            ObserverStepView::Ended(Err("Control stopped receiving live target observations"@))
        },
        (
            ObserverStepView::CleanUp { mode, terminal },
            ObserverEventView::CleanedUp { result, evidence },
        ) => ObserverStepView::Publish(ended_after_cleanup(terminal, result, evidence)),
        (ObserverStepView::Publish(_), ObserverEventView::Published { received }) => if received {
            ObserverStepView::Ended(Ok(()))
        } else {
            ObserverStepView::Ended(Err("Control stopped receiving live target observations"@))
        },
        (step, _) => step,
    }
}

/// Tells what became of a graceful close that was handed to the writer.
pub fn close_delivered(received: bool) -> (result: Result<(), String>)
    ensures
        told(result) == (if received {
            Ok(())
        } else {
            Err("live input writer stopped before graceful close"@)
        }),
{
    if received {
        Ok(())
    } else {
        Err("live input writer stopped before graceful close".to_owned())
    }
}

/// Tells what became of registering a live runtime: an operation owns one at most.
pub fn runtime_registered(first: bool) -> (result: Result<(), String>)
    ensures
        told(result) == (if first {
            Ok(())
        } else {
            Err("operation already owns a live runtime"@)
        }),
{
    if first {
        Ok(())
    } else {
        Err("operation already owns a live runtime".to_owned())
    }
}

/// The live runtime of an operation, which must have one to be used.
pub fn runtime_found<T>(found: Option<T>) -> (owned: Result<T, String>)
    ensures
        match found {
            Some(value) => owned == Ok::<T, String>(value),
            None => owned matches Err(message) && message@ == "live runtime is not active"@,
        },
{
    match found {
        Some(value) => Ok(value),
        None => Err("live runtime is not active".to_owned()),
    }
}

/// Tells what became of removing the live runtime of a conversation that is over.
pub fn runtime_removed(found: bool) -> (result: Result<(), String>)
    ensures
        told(result) == (if found {
            Ok(())
        } else {
            Err("live runtime disappeared before completion"@)
        }),
{
    if found {
        Ok(())
    } else {
        Err("live runtime disappeared before completion".to_owned())
    }
}

/// How a conversation ended whose child exited.
fn exit_observation(success: bool, cancelled: bool, graceful: bool, all_completed: bool) -> (
observation: TargetLiveObservation)
    ensures
        observation@ == exit_observed(success, cancelled, graceful, all_completed),
{
    if cancelled {
        TargetLiveObservation::Cancelled
    } else if success && graceful && all_completed {
        TargetLiveObservation::Exited
    } else {
        TargetLiveObservation::Indeterminate(
            "direct live child exited before a graceful completed conversation".to_owned(),
        )
    }
}

/// How a conversation ended, after the cleanup.
fn after_cleanup(
    terminal: TargetLiveObservation,
    result: Result<(), String>,
    evidence: ChildExitEvidence,
) -> (observation: TargetLiveObservation)
    ensures
        observation@ == ended_after_cleanup(terminal@, told(result), evidence),
{
    match result {
        Ok(()) => terminal,
        Err(message) => match evidence {
            ChildExitEvidence::Proven => TargetLiveObservation::Indeterminate(
                joined(
                    "direct child exited but live runtime cleanup failed: ",
                    message.as_str(),
                ),
            ),
            ChildExitEvidence::Unproven => TargetLiveObservation::UnclassifiedWriter(
                joined(
                    "live provider terminal classification lost direct-child cleanup proof: ",
                    message.as_str(),
                ),
            ),
        },
    }
}

/// What a refused event makes of the observation.
fn terminal_from_error(error: CodecError, mode: CleanupMode) -> (step: ObserverStep)
    ensures
        step@ == consumption_refused(error@, mode),
{
    match error {
        CodecError::Failed { turn_id, message } => ObserverStep::PublishFailedTurn {
            turn_id,
            message,
            mode,
        },
        CodecError::Indeterminate(message) => ObserverStep::CleanUp {
            mode,
            terminal: TargetLiveObservation::Indeterminate(message),
        },
    }
}

/// The end of an observation whose last word was or was not received.
fn published(received: bool) -> (result: Result<(), String>)
    ensures
        told(result) == (if received {
            Ok(())
        } else {
            Err("Control stopped receiving live target observations"@)
        }),
{
    if received {
        Ok(())
    } else {
        Err("Control stopped receiving live target observations".to_owned())
    }
}

/// Goes on with the observation of a live child.
pub fn observe(
    step: ObserverStep,
    event: ObserverEvent,
    cancelled: bool,
    graceful: bool,
    all_completed: bool,
) -> (next: ObserverStep)
    ensures
        next@ == observer_advanced(step@, event@, cancelled, graceful, all_completed),
{
    match (step, event) {
        (ObserverStep::Consume, ObserverEvent::PumpFailed(message)) => ObserverStep::CleanUp {
            mode: CleanupMode::Terminate,
            terminal: TargetLiveObservation::Indeterminate(message),
        },
        (ObserverStep::Consume, ObserverEvent::Consumed { refusal }) => match refusal {
            None => ObserverStep::CheckChild,
            Some(error) => terminal_from_error(error, CleanupMode::Terminate),
        },
        (ObserverStep::CheckChild, ObserverEvent::Running) => ObserverStep::Consume,
        (ObserverStep::CheckChild, ObserverEvent::StatusFailed(message)) => ObserverStep::CleanUp {
            mode: CleanupMode::Terminate,
            terminal: TargetLiveObservation::Indeterminate(message),
        },
        (ObserverStep::CheckChild, ObserverEvent::Exited) => ObserverStep::Drain,
        (ObserverStep::Drain, ObserverEvent::Consumed { refusal: Some(error) }) =>
            terminal_from_error(error, CleanupMode::ObservedExit),
        (ObserverStep::Drain, ObserverEvent::Drained { success }) => ObserverStep::CleanUp {
            mode: CleanupMode::ObservedExit,
            terminal: exit_observation(success, cancelled, graceful, all_completed),
        },
        (
            ObserverStep::PublishFailedTurn { turn_id, message, mode },
            ObserverEvent::Published { received },
        ) => {
            if received {
                ObserverStep::CleanUp { mode, terminal: TargetLiveObservation::Failed(message) }
            } else {
                ObserverStep::Ended(published(received))
            }
        },
        (
            ObserverStep::CleanUp { mode, terminal },
            ObserverEvent::CleanedUp { result, evidence },
        ) => ObserverStep::Publish(after_cleanup(terminal, result, evidence)),
        (ObserverStep::Publish(_), ObserverEvent::Published { received }) => ObserverStep::Ended(
            published(received),
        ),
        (step, _) => step,
    }
}

/// Several results under one root, in words.
pub open spec fn many_combined(root: Seq<char>, results: Seq<Result<(), Seq<char>>>) -> Result<
    (),
    Seq<char>,
> {
    let failures = failures_among(results);
    if failures.len() == 0 {
        Ok(())
    } else {
        Err(root + ": "@ + failures_joined(failures))
    }
}

/// What a cleanup comes to: its result, and whether the exit of the child is proven. Where the
/// exit had been observed, neither a termination nor a wait is asked for.
pub open spec fn cleanup_concluded(
    mode: CleanupMode,
    termination: Result<(), Seq<char>>,
    wait: Result<(), Seq<char>>,
    writer: Result<(), Seq<char>>,
    child_removal: Result<(), Seq<char>>,
    runtime_removal: Result<(), Seq<char>>,
) -> (Result<(), Seq<char>>, ChildExitEvidence) {
    let child = match mode {
        CleanupMode::Terminate => many_combined(
            "direct live child cleanup"@,
            seq![termination, wait],
        ),
        CleanupMode::ObservedExit => Ok(()),
    };
    (
        many_combined(
            "live runtime cleanup"@,
            seq![child, writer, child_removal, runtime_removal],
        ),
        if mode is Terminate && wait is Err {
            ChildExitEvidence::Unproven
        } else {
            ChildExitEvidence::Proven
        },
    )
}

/// Several results under one root, in words.
fn combine_many(root: &str, results: &Vec<Result<(), String>>) -> (combined: Result<(), String>)
    ensures
        told(combined) == many_combined(root@, told_all(results@)),
{
    match join_failures(results) {
        None => Ok(()),
        Some(failures) => Err(joined3(root, ": ", failures.as_str())),
    }
}

/// Tells what a cleanup comes to.
pub fn cleanup(
    mode: CleanupMode,
    termination: Result<(), String>,
    wait: Result<(), String>,
    writer_panicked: bool,
    child_removal: Result<(), String>,
    runtime_removal: Result<(), String>,
) -> (concluded: (Result<(), String>, ChildExitEvidence))
    ensures
        (told(concluded.0), concluded.1) == cleanup_concluded(
            mode,
            told(termination),
            told(wait),
            if writer_panicked {
                Err("live input writer panicked"@)
            } else {
                Ok(())
            },
            told(child_removal),
            told(runtime_removal),
        ),
{
    let writer: Result<(), String> = if writer_panicked {
        Err("live input writer panicked".to_owned())
    } else {
        Ok(())
    };
    let proof_of_exit = match (mode, &wait) {
        (CleanupMode::Terminate, Err(_)) => ChildExitEvidence::Unproven,
        _ => ChildExitEvidence::Proven,
    };
    let ghost pair = seq![told(termination), told(wait)];
    let child: Result<(), String> = match mode {
        CleanupMode::Terminate => {
            let mut results: Vec<Result<(), String>> = Vec::new();
            results.push(termination);
            results.push(wait);
            proof {
                assert(told_all(results@) =~= pair);
            }
            combine_many("direct live child cleanup", &results)
        },
        CleanupMode::ObservedExit => Ok(()),
    };
    let ghost all = seq![told(child), told(writer), told(child_removal), told(runtime_removal)];
    let mut results: Vec<Result<(), String>> = Vec::new();
    results.push(child);
    results.push(writer);
    results.push(child_removal);
    results.push(runtime_removal);
    proof {
        assert(told_all(results@) =~= all);
    }
    (combine_many("live runtime cleanup", &results), proof_of_exit)
}

/// Admission keeps turns and positions distinct.
pub proof fn admission_stays_sound(admission: LiveAdmissionView, turn: TargetLiveTurnView)
    requires
        admission.sound(),
    ensures
        admission.admitting(turn).0.sound(),
{
    let after = admission.admitting(turn).0;
    assert forall|left: TargetTurnId, right: TargetTurnId|
        #![trigger after.turns.contains_key(left), after.turns.contains_key(right)]
        after.turns.contains_key(left) && after.turns.contains_key(right)
            && after.turns[left].position == after.turns[right].position implies left == right by {
        if left != turn.turn_id {
            assert(admission.turns.contains_key(left));
        }
        if right != turn.turn_id {
            assert(admission.turns.contains_key(right));
        }
    }
}

/// A turn is delivered once: admitted again, it is not new.
pub proof fn admitted_turn_is_not_new(admission: LiveAdmissionView, turn: TargetLiveTurnView)
    requires
        admission.admitting(turn).1 == Ok::<_, Seq<char>>(true),
    ensures
        admission.admitting(turn).0.admitting(turn) == (
            admission.admitting(turn).0,
            Ok::<bool, Seq<char>>(false),
        ),
{
}

/// After a graceful close no turn beyond its position is admitted, and another position is refused.
pub proof fn graceful_close_is_kept(
    admission: LiveAdmissionView,
    through_position: u64,
    other: u64,
    turn: TargetLiveTurnView,
)
    requires
        admission.close(through_position).1 == Ok::<_, Seq<char>>(true),
        other != through_position,
        turn.position > through_position,
        !admission.turns.contains_key(turn.turn_id),
    ensures
        admission.close(through_position).0.close(other).1 is Err,
        admission.close(through_position).0.admitting(turn).1 is Err,
{
}

/// A conversation is observed as properly ended only after a successful exit, a graceful close, and
/// the completion of every turn; and a cleanup that failed takes that back.
pub proof fn proper_end_needs_everything(
    success: bool,
    cancelled: bool,
    graceful: bool,
    all_completed: bool,
    result: Result<(), Seq<char>>,
    evidence: ChildExitEvidence,
)
    requires
        ended_after_cleanup(
            exit_observed(success, cancelled, graceful, all_completed),
            result,
            evidence,
        ) is Exited,
    ensures
        success && graceful && all_completed && !cancelled && result is Ok,
{
}

/// A possible writer is left behind only where the exit of the child was not observed.
pub proof fn unclassified_writer_needs_an_unproven_exit(
    mode: CleanupMode,
    termination: Result<(), Seq<char>>,
    wait: Result<(), Seq<char>>,
    writer: Result<(), Seq<char>>,
    child_removal: Result<(), Seq<char>>,
    runtime_removal: Result<(), Seq<char>>,
    terminal: TargetLiveObservationView,
)
    requires
        !(terminal is UnclassifiedWriter),
    ensures
        ({
            let (result, evidence) = cleanup_concluded(
                mode,
                termination,
                wait,
                writer,
                child_removal,
                runtime_removal,
            );
            ended_after_cleanup(terminal, result, evidence) is UnclassifiedWriter <==> (
            mode is Terminate && wait is Err)
        }),
{
    if mode is Terminate && wait is Err {
        let pair = seq![termination, wait];
        assert(pair.drop_last() =~= seq![termination]);
        assert(failures_among(pair).len() > 0);
        let child = many_combined("direct live child cleanup"@, pair);
        let all = seq![child, writer, child_removal, runtime_removal];
        assert(all.drop_last() =~= seq![child, writer, child_removal]);
        assert(all.drop_last().drop_last() =~= seq![child, writer]);
        assert(all.drop_last().drop_last().drop_last() =~= seq![child]);
        reveal_with_fuel(failures_among, 5);
        assert(failures_among(all).len() > 0);
    }
}

/// What a report of the writer does to a codec.
pub fn consume_report(codec: &mut Codec, report: WriterReport) -> (consumed: Result<(), CodecError>)
    requires
        old(codec).well_formed(),
    ensures
        final(codec).well_formed(),
        match report@ {
            WriterReportView::Prepared(turn) => {
                &&& final(codec)@ == old(codec)@.with_turn(
                    TurnEntryView { turn, phase: TurnPhase::AwaitingQueue, result: None },
                )
                &&& match consumed {
                    Ok(()) => !old(codec)@.turns.contains_key(turn.turn_id),
                    Err(error) => old(codec)@.turns.contains_key(turn.turn_id) && error@
                        == CodecErrorView::Indeterminate(
                        "provider input reported a duplicate turn UUID"@,
                    ),
                }
            },
            WriterReportView::Closed => consumed is Ok && final(codec)@ == old(codec)@,
            WriterReportView::Failed(message) => final(codec)@ == old(codec)@ && (
            consumed matches Err(error) && error@ == CodecErrorView::Indeterminate(message)),
        },
{
    match report {
        WriterReport::Prepared(turn) => codec.register_turn(turn),
        WriterReport::Closed => Ok(()),
        WriterReport::Failed(message) => Err(CodecError::Indeterminate(message)),
    }
}

/// What lines of output do to a codec and let be observed, up to the first that is refused.
pub open spec fn output_consumed(
    codec: CodecView,
    lines: Seq<Seq<char>>,
    expected_model: Seq<char>,
    intended: TargetSessionId,
) -> (CodecView, Seq<TargetLiveObservationView>, Option<CodecErrorView>)
    decreases lines.len(),
{
    if lines.len() == 0 {
        (codec, Seq::empty(), None)
    } else {
        let (before, observations, refusal) = output_consumed(
            codec,
            lines.drop_last(),
            expected_model,
            intended,
        );
        if refusal is Some {
            (before, observations, refusal)
        } else {
            let (after, answer) = observed_line(
                before,
                json_parsed(lines.last()),
                expected_model,
                intended,
            );
            match answer {
                Ok(more) => (after, observations + more, None),
                Err(error) => (after, observations, Some(error)),
            }
        }
    }
}

/// Consumes lines of output up to the first that is refused.
pub fn consume_output(
    codec: &mut Codec,
    lines: &Vec<String>,
    expected_model: &str,
    intended: TargetSessionId,
) -> (consumed: (Vec<TargetLiveObservation>, Option<CodecError>))
    requires
        old(codec).well_formed(),
    ensures
        final(codec).well_formed(),
        (final(codec)@, views(consumed.0@), optional(consumed.1)) == output_consumed(
            old(codec)@,
            views(lines@),
            expected_model@,
            intended,
        ),
{
    let ghost start = codec@;
    let ghost all = views(lines@);
    let mut observations: Vec<TargetLiveObservation> = Vec::new();
    proof {
        assert(views(observations@) =~= Seq::<TargetLiveObservationView>::empty());
    }
    let mut index: usize = 0;
    while index < lines.len()
        invariant
            index <= lines@.len(),
            all == views(lines@),
            start == old(codec)@,
            codec.well_formed(),
            (codec@, views(observations@), None::<CodecErrorView>) == output_consumed(
                start,
                all.take(index as int),
                expected_model@,
                intended,
            ),
        decreases lines@.len() - index,
    {
        let ghost before = views(observations@);
        proof {
            assert(all.take(index + 1).drop_last() =~= all.take(index as int));
            assert(all.take(index + 1).last() == all[index as int]);
        }
        match codec.observe(lines[index].as_str(), expected_model, intended) {
            Ok(mut more) => {
                let ghost added = views(more@);
                observations.append(&mut more);
                proof {
                    assert(views(observations@) =~= before + added);
                }
            },
            Err(error) => {
                proof {
                    lemma_refusal_stays(
                        start,
                        all,
                        index + 1,
                        expected_model@,
                        intended,
                        codec@,
                        before,
                        error@,
                    );
                }
                return (observations, Some(error));
            },
        }
        index = index + 1;
    }
    proof {
        assert(all.take(index as int) =~= all);
    }
    (observations, None)
}

/// What follows a refused line is not consumed.
proof fn lemma_refusal_stays(
    codec: CodecView,
    lines: Seq<Seq<char>>,
    length: int,
    expected_model: Seq<char>,
    intended: TargetSessionId,
    reached: CodecView,
    observations: Seq<TargetLiveObservationView>,
    error: CodecErrorView,
)
    requires
        0 <= length <= lines.len(),
        output_consumed(codec, lines.take(length), expected_model, intended) == (
            reached,
            observations,
            Some(error),
        ),
    ensures
        output_consumed(codec, lines, expected_model, intended) == (
            reached,
            observations,
            Some(error),
        ),
    decreases lines.len() - length,
{
    if length == lines.len() {
        assert(lines.take(length) =~= lines);
    } else {
        assert(lines.take(length + 1).drop_last() =~= lines.take(length));
        lemma_refusal_stays(
            codec,
            lines,
            length + 1,
            expected_model,
            intended,
            reached,
            observations,
            error,
        );
    }
}

} // verus!
