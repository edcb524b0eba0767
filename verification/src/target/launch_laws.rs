//! How the target is invoked, fed, observed and stopped, told of the arguments, the turns and the
//! reports themselves.

use vstd::prelude::*;

use crate::contract::target::{
    TargetIntent, TargetLiveObservationView, TargetLiveStartErrorView, TargetLiveTurnView,
    TargetSessionId, TargetTurnId,
};
use crate::identifier::uuid_text;
use crate::json::{first_member, JsonView};
use crate::target::child::{
    failures_among, failures_joined, unregistered_stopped, ChildExitEvidence,
    ChildRegistrationErrorView,
};
use crate::target::command::{arguments, InvocationMode};
use crate::target::conversation::{
    cleanup_concluded, many_combined, observer_advanced, CleanupMode, LiveAdmissionView,
    ObserverEventView,
    ObserverStepView,
};
use crate::target::conversation_codec::CodecErrorView;
use crate::target::conversation_input::{
    turn_frame, InputQueueView, InputStepView, WriterCommandView,
};
use crate::target::live_start::{
    start_advanced, start_begun, LiveStartEventView, LiveStartStepView,
};

verus! {

/// The session arguments that follow the fixed ones.
pub open spec fn names_the_session(
    line: Seq<Seq<char>>,
    intent: TargetIntent,
    intended: TargetSessionId,
) -> bool {
    match intent {
        TargetIntent::New => line =~= seq!["--session-id"@, uuid_text(intended.0)],
        TargetIntent::ResumeExact { session_id } => line =~= seq![
            "--resume"@,
            uuid_text(session_id.0),
        ],
    }
}

/// A review is asked for with exactly these arguments, and with nothing else but its session.
pub proof fn review_is_invoked_exactly(intent: TargetIntent, intended: TargetSessionId)
    ensures
        ({
            let line = arguments(InvocationMode::OneShot, intent, intended);
            &&& line.len() == 18
            &&& line.take(16) =~= seq![
                "--print"@,
                "--verbose"@,
                "--output-format"@,
                "stream-json"@,
                "--model"@,
                "opus"@,
                "--effort"@,
                "max"@,
                "--permission-mode"@,
                "dontAsk"@,
                "--restricted"@,
                "--safe-mode"@,
                "--tools"@,
                "Read,Glob,Grep"@,
                "--allowedTools"@,
                "Read,Glob,Grep"@,
            ]
            &&& names_the_session(line.skip(16), intent, intended)
        }),
{
}

/// A conversation is asked for with exactly these arguments, and with nothing else but its session.
pub proof fn conversation_is_invoked_exactly(intent: TargetIntent, intended: TargetSessionId)
    ensures
        ({
            let line = arguments(InvocationMode::Live, intent, intended);
            &&& line.len() == 22
            &&& line.take(20) =~= seq![
                "--print"@,
                "--input-format"@,
                "stream-json"@,
                "--output-format"@,
                "stream-json"@,
                "--include-partial-messages"@,
                "--replay-user-messages"@,
                "--verbose"@,
                "--model"@,
                "opus"@,
                "--effort"@,
                "max"@,
                "--permission-mode"@,
                "dontAsk"@,
                "--restricted"@,
                "--safe-mode"@,
                "--tools"@,
                "Read,Glob,Grep"@,
                "--allowedTools"@,
                "Read,Glob,Grep"@,
            ]
            &&& names_the_session(line.skip(20), intent, intended)
        }),
{
}

/// A turn is framed as a message of the user under the identity of the turn, with exactly its
/// prompt as its one text.
pub proof fn turn_is_framed_as_a_user_message(turn_id: u128, prompt: Seq<char>)
    ensures
        ({
            let frame = turn_frame(turn_id, prompt);
            &&& frame.member("type"@) == Some(JsonView::Text("user"@))
            &&& frame.member("uuid"@) == Some(JsonView::Text(uuid_text(turn_id)))
            &&& frame.member("message"@) matches Some(message) && message.member("role"@) == Some(
                JsonView::Text("user"@),
            ) && (message.member("content"@) matches Some(JsonView::Array(content)) && content.len()
                == 1 && content[0].member("type"@) == Some(JsonView::Text("text"@))
                && content[0].member("text"@) == Some(JsonView::Text(prompt)))
        }),
{
    reveal_strlit("type");
    reveal_strlit("uuid");
    reveal_strlit("message");
    reveal_strlit("role");
    reveal_strlit("content");
    reveal_strlit("text");
    assert("message"@.len() == 7 && "type"@.len() == 4 && "content"@.len() == 7);
    assert("type"@[0] == 't' && "uuid"@[0] == 'u' && "role"@[0] == 'r');
    assert("type"@[1] == 'y' && "text"@[1] == 'e');
    reveal_with_fuel(first_member, 4);
    let frame = turn_frame(turn_id, prompt);
    let members = frame->Object_0;
    assert(members.drop_first()[0] == members[1]);
    assert(members.drop_first().drop_first()[0] == members[2]);
    let message = members[0].1;
    let inner = message->Object_0;
    assert(inner.drop_first()[0] == inner[1]);
    let block = (inner[0].1->Array_0)[0]->Object_0;
    assert(block.drop_first()[0] == block[1]);
}

/// The turn at the next position is written as it was given, and leaves the queue alone; it is
/// asked for again by nobody.
pub proof fn next_turn_is_written(queue: InputQueueView)
    requires
        queue.pending.contains_key(queue.next_position),
    ensures
        queue.step().1 == InputStepView::Write(queue.pending[queue.next_position]),
        queue.step().0.pending == queue.pending.remove(queue.next_position),
        queue.step().0.next_position == queue.next_position,
        queue.step().0.close_through == queue.close_through,
{
}

/// While the next turn is missing the input ends exactly where every position up to the last
/// admitted one was passed, and waits otherwise; the queue stays as it is.
pub proof fn missing_turn_is_awaited(queue: InputQueueView)
    requires
        !queue.pending.contains_key(queue.next_position),
    ensures
        queue.step().0 == queue,
        queue.step().1 is Closed <==> (queue.close_through matches Some(last) && last
            < queue.next_position),
        queue.step().1 is Await <==> (queue.close_through matches Some(last)
            ==> queue.next_position <= last),
{
}

/// A turn waits at its own position, a close names the last position, and a cancellation ends the
/// writer; nothing else changes. Two turns at one position are refused.
pub proof fn commands_are_kept_as_given(
    queue: InputQueueView,
    turn: TargetLiveTurnView,
    through_position: u64,
)
    ensures
        ({
            let (after, goes_on) = queue.receive(WriterCommandView::Turn(turn));
            &&& after.pending == queue.pending.insert(turn.position, turn)
            &&& after.next_position == queue.next_position
            &&& after.close_through == queue.close_through
            &&& if queue.pending.contains_key(turn.position) {
                goes_on == Err::<bool, _>(
                    "live input received two turns at one durable position"@,
                )
            } else {
                goes_on == Ok::<_, Seq<char>>(true)
            }
        }),
        ({
            let (after, goes_on) = queue.receive(WriterCommandView::Close { through_position });
            &&& after.pending == queue.pending
            &&& after.next_position == queue.next_position
            &&& after.close_through == Some(through_position)
            &&& goes_on == Ok::<_, Seq<char>>(true)
        }),
        queue.receive(WriterCommandView::Cancel) == (queue, Ok::<_, Seq<char>>(false)),
{
}

/// Whether nothing keeps a turn from being admitted.
pub open spec fn free_for(admission: LiveAdmissionView, turn: TargetLiveTurnView) -> bool {
    &&& !admission.broken
    &&& !admission.cancelled
    &&& forall|other: TargetTurnId| #[trigger]
        admission.turns.contains_key(other) ==> other != turn.turn_id
            && admission.turns[other].position != turn.position
    &&& admission.graceful_through matches Some(last) ==> turn.position <= last
}

/// A turn of a new identity at a new position, within a graceful close and before a cancellation,
/// is admitted as new and kept as it was given.
pub proof fn free_turn_is_admitted(admission: LiveAdmissionView, turn: TargetLiveTurnView)
    requires
        free_for(admission, turn),
    ensures
        admission.admitting(turn) == (
            LiveAdmissionView { turns: admission.turns.insert(turn.turn_id, turn), ..admission },
            Ok::<_, Seq<char>>(true),
        ),
{
    if admission.position_taken(turn.position) {
        let owner = admission.position_owner(turn.position);
        assert(admission.turns.contains_key(owner));
    }
}

/// A turn that is not free changes nothing: the same turn again is not new, and any other is
/// refused, each for its own reason.
pub proof fn other_turn_is_not_admitted(admission: LiveAdmissionView, turn: TargetLiveTurnView)
    requires
        !free_for(admission, turn),
    ensures
        admission.admitting(turn).0 == admission,
        ({
            let answer = admission.admitting(turn).1;
            if admission.broken {
                answer == Err::<bool, _>("live input delivery is indeterminate"@)
            } else if admission.turns.contains_key(turn.turn_id) {
                if admission.turns[turn.turn_id] == turn {
                    answer == Ok::<_, Seq<char>>(false)
                } else {
                    answer == Err::<bool, _>("live turn UUID was reused with different content"@)
                }
            } else {
                answer is Err
            }
        }),
        forall|owner: TargetTurnId|
            admission.sound() && !admission.broken && !admission.turns.contains_key(turn.turn_id)
                && #[trigger] admission.turns.contains_key(owner) && admission.turns[owner].position
                == turn.position ==> admission.admitting(turn).1 == Err::<bool, _>(
                "live turn position is already owned by TargetTurnId("@ + uuid_text(owner.0)
                    + ")"@,
            ),
        ({
            let fresh = !admission.broken && !admission.turns.contains_key(turn.turn_id)
                && forall|other: TargetTurnId| #[trigger]
                admission.turns.contains_key(other) ==> admission.turns[other].position
                    != turn.position;
            &&& fresh && admission.cancelled ==> admission.admitting(turn).1 == Err::<bool, _>(
                "live conversation was cancelled before turn delivery"@,
            )
            &&& fresh && !admission.cancelled ==> admission.admitting(turn).1 == Err::<bool, _>(
                "live conversation no longer admits turns beyond graceful close"@,
            )
        }),
{
    if admission.position_taken(turn.position) {
        let owner = admission.position_owner(turn.position);
        assert(admission.turns.contains_key(owner) && admission.turns[owner].position
            == turn.position);
    }
    assert forall|owner: TargetTurnId|
        admission.sound() && !admission.broken && !admission.turns.contains_key(turn.turn_id)
            && #[trigger] admission.turns.contains_key(owner) && admission.turns[owner].position
            == turn.position implies admission.admitting(turn).1 == Err::<bool, _>(
        "live turn position is already owned by TargetTurnId("@ + uuid_text(owner.0) + ")"@,
    ) by {
        assert(admission.position_taken(turn.position));
        let chosen = admission.position_owner(turn.position);
        assert(admission.turns.contains_key(chosen));
    }
}

/// A graceful close is kept once it was named; the same again is not new, and every other answer
/// leaves the admission as it was.
pub proof fn graceful_close_is_named_once(admission: LiveAdmissionView, through_position: u64)
    ensures
        ({
            let (after, answer) = admission.close(through_position);
            if admission.broken {
                after == admission && answer == Err::<bool, _>(
                    "live input delivery is indeterminate"@,
                )
            } else if admission.cancelled {
                after == admission && answer == Err::<bool, _>(
                    "live conversation was cancelled before graceful close"@,
                )
            } else if through_position == 0 {
                after == admission && answer == Err::<bool, _>(
                    "graceful close position must start at one"@,
                )
            } else if admission.graceful_through is None {
                after == (LiveAdmissionView {
                    graceful_through: Some(through_position),
                    ..admission
                }) && answer == Ok::<_, Seq<char>>(true)
            } else if admission.graceful_through == Some(through_position) {
                after == admission && answer == Ok::<_, Seq<char>>(false)
            } else {
                after == admission && answer == Err::<bool, _>(
                    "graceful close contradicted its durable admitted position"@,
                )
            }
        }),
{
}

/// What an observer publishes of a child that exited, after a cleanup.
pub open spec fn published_of_exit(
    success: bool,
    cancelled: bool,
    graceful: bool,
    all_completed: bool,
    cleanup: ObserverEventView,
) -> ObserverStepView {
    let exited = observer_advanced(
        ObserverStepView::CheckChild,
        ObserverEventView::Exited,
        cancelled,
        graceful,
        all_completed,
    );
    let drained = observer_advanced(
        exited,
        ObserverEventView::Drained { success },
        cancelled,
        graceful,
        all_completed,
    );
    observer_advanced(drained, cleanup, cancelled, graceful, all_completed)
}

/// A child that exited and was cleaned up is observed as cancelled where the conversation was
/// cancelled, as properly exited where it exited successfully after a graceful close with every
/// turn completed, and as indeterminate otherwise.
pub proof fn exit_is_observed(
    success: bool,
    cancelled: bool,
    graceful: bool,
    all_completed: bool,
    evidence: ChildExitEvidence,
)
    ensures
        ({
            let told = published_of_exit(
                success,
                cancelled,
                graceful,
                all_completed,
                ObserverEventView::CleanedUp { result: Ok(()), evidence },
            );
            if cancelled {
                told == ObserverStepView::Publish(TargetLiveObservationView::Cancelled)
            } else if success && graceful && all_completed {
                told == ObserverStepView::Publish(TargetLiveObservationView::Exited)
            } else {
                told == ObserverStepView::Publish(
                    TargetLiveObservationView::Indeterminate(
                        "direct live child exited before a graceful completed conversation"@,
                    ),
                )
            }
        }),
{
}

/// A cleanup that failed is told instead of how the conversation ended: as indeterminate where the
/// exit of the child is proven, and as a possible writer where it is not.
pub proof fn failed_cleanup_is_observed(
    mode: CleanupMode,
    terminal: TargetLiveObservationView,
    message: Seq<char>,
    cancelled: bool,
    graceful: bool,
    all_completed: bool,
)
    ensures
        observer_advanced(
            ObserverStepView::CleanUp { mode, terminal },
            ObserverEventView::CleanedUp {
                result: Err(message),
                evidence: ChildExitEvidence::Proven,
            },
            cancelled,
            graceful,
            all_completed,
        ) == ObserverStepView::Publish(
            TargetLiveObservationView::Indeterminate(
                "direct child exited but live runtime cleanup failed: "@ + message,
            ),
        ),
        observer_advanced(
            ObserverStepView::CleanUp { mode, terminal },
            ObserverEventView::CleanedUp {
                result: Err(message),
                evidence: ChildExitEvidence::Unproven,
            },
            cancelled,
            graceful,
            all_completed,
        ) == ObserverStepView::Publish(
            TargetLiveObservationView::UnclassifiedWriter(
                "live provider terminal classification lost direct-child cleanup proof: "@
                    + message,
            ),
        ),
{
}

/// An observer goes on as long as its child runs and its output is accepted. What is refused ends
/// it: a failed turn is told first and fails the conversation, anything else leaves it
/// indeterminate; a child that may still run is terminated, one that exited is not.
pub proof fn refused_output_ends_the_observation(
    turn_id: TargetTurnId,
    message: Seq<char>,
    cancelled: bool,
    graceful: bool,
    all_completed: bool,
)
    ensures
        ({
            let failed = CodecErrorView::Failed { turn_id, message };
            let unclear = CodecErrorView::Indeterminate(message);
            let consume = ObserverStepView::Consume;
            let published = ObserverEventView::Published { received: true };
            let publish = |mode: CleanupMode|
                ObserverStepView::PublishFailedTurn { turn_id, message, mode };
            let left = |mode: CleanupMode|
                ObserverStepView::CleanUp {
                    mode,
                    terminal: TargetLiveObservationView::Indeterminate(message),
                };
            let next = |step: ObserverStepView, event: ObserverEventView|
                observer_advanced(step, event, cancelled, graceful, all_completed);
            &&& next(consume, ObserverEventView::Consumed { refusal: None }) is CheckChild
            &&& next(ObserverStepView::CheckChild, ObserverEventView::Running) is Consume
            &&& next(consume, ObserverEventView::Consumed { refusal: Some(failed) }) == publish(
                CleanupMode::Terminate,
            )
            &&& next(
                ObserverStepView::Drain,
                ObserverEventView::Consumed { refusal: Some(failed) },
            ) == publish(CleanupMode::ObservedExit)
            &&& next(publish(CleanupMode::Terminate), published) == (ObserverStepView::CleanUp {
                mode: CleanupMode::Terminate,
                terminal: TargetLiveObservationView::Failed(message),
            })
            &&& next(consume, ObserverEventView::Consumed { refusal: Some(unclear) }) == left(
                CleanupMode::Terminate,
            )
            &&& next(
                ObserverStepView::Drain,
                ObserverEventView::Consumed { refusal: Some(unclear) },
            ) == left(CleanupMode::ObservedExit)
            &&& next(consume, ObserverEventView::PumpFailed(message)) == left(
                CleanupMode::Terminate,
            )
            &&& next(
                ObserverStepView::CheckChild,
                ObserverEventView::StatusFailed(message),
            ) == left(CleanupMode::Terminate)
        }),
{
}

/// Failures are told in the order in which they came, with semicolons between them.
pub proof fn failures_are_told_in_order(first: Seq<char>, second: Seq<char>, third: Seq<char>)
    ensures
        failures_joined(failures_among(seq![Err(first), Err(second), Err(third)])) == first
            + "; "@ + second + "; "@ + third,
        failures_joined(failures_among(seq![Err(first), Err(second), Ok(())])) == first + "; "@
            + second,
        failures_joined(failures_among(seq![Err(first), Ok(()), Err(third)])) == first + "; "@
            + third,
        failures_joined(failures_among(seq![Ok(()), Err(second), Err(third)])) == second + "; "@
            + third,
        failures_joined(failures_among(seq![Err(first), Ok(()), Ok(())])) == first,
        failures_joined(failures_among(seq![Ok(()), Err(second), Ok(())])) == second,
        failures_joined(failures_among(seq![Ok(()), Ok(()), Err(third)])) == third,
        failures_among(
            seq![Ok::<(), Seq<char>>(()), Ok::<(), Seq<char>>(()), Ok::<(), Seq<char>>(())],
        ).len() == 0,
{
    lemma_three(Err(first), Err(second), Err(third));
    lemma_three(Err(first), Err(second), Ok(()));
    lemma_three(Err(first), Ok(()), Err(third));
    lemma_three(Ok(()), Err(second), Err(third));
    lemma_three(Err(first), Ok(()), Ok(()));
    lemma_three(Ok(()), Err(second), Ok(()));
    lemma_three(Ok(()), Ok(()), Err(third));
    lemma_three(Ok(()), Ok(()), Ok(()));
    let none = Seq::<Seq<char>>::empty();
    reveal_with_fuel(failures_joined, 4);
    assert(none.push(first).push(second).drop_last() =~= none.push(first));
    assert(none.push(first).push(third).drop_last() =~= none.push(first));
    assert(none.push(second).push(third).drop_last() =~= none.push(second));
    assert(none.push(first).push(second).push(third).drop_last() =~= none.push(first).push(
        second,
    ));
}

/// The failures among three results.
proof fn lemma_three(
    first: Result<(), Seq<char>>,
    second: Result<(), Seq<char>>,
    third: Result<(), Seq<char>>,
)
    ensures
        ({
            let none = Seq::<Seq<char>>::empty();
            let one = match first {
                Ok(()) => none,
                Err(message) => none.push(message),
            };
            let two = match second {
                Ok(()) => one,
                Err(message) => one.push(message),
            };
            failures_among(seq![first, second, third]) == match third {
                Ok(()) => two,
                Err(message) => two.push(message),
            }
        }),
{
    let all = seq![first, second, third];
    reveal_with_fuel(failures_among, 4);
    assert(all.drop_last() =~= seq![first, second]);
    assert(all.drop_last().drop_last() =~= seq![first]);
    assert(all.drop_last().drop_last().drop_last() =~= Seq::empty());
}

/// A cleanup without a failure succeeds, and the exit of a child is proven exactly where it was
/// observed before or was waited for.
pub proof fn clean_cleanup_succeeds(
    mode: CleanupMode,
    termination: Result<(), Seq<char>>,
    wait: Result<(), Seq<char>>,
    writer: Result<(), Seq<char>>,
    child: Result<(), Seq<char>>,
    runtime: Result<(), Seq<char>>,
)
    ensures
        ({
            let (result, evidence) = cleanup_concluded(
                mode,
                termination,
                wait,
                writer,
                child,
                runtime,
            );
            &&& result is Ok <==> (mode is ObservedExit || (termination is Ok && wait is Ok))
                && writer is Ok && child is Ok && runtime is Ok
            &&& evidence is Proven <==> mode is ObservedExit || wait is Ok
        }),
{
    let pair = seq![termination, wait];
    reveal_with_fuel(failures_among, 5);
    assert(pair.drop_last() =~= seq![termination]);
    assert(pair.drop_last().drop_last() =~= Seq::empty());
    let direct = match mode {
        CleanupMode::Terminate => many_combined(
            "direct live child cleanup"@,
            pair,
        ),
        CleanupMode::ObservedExit => Ok(()),
    };
    let all = seq![direct, writer, child, runtime];
    assert(all.drop_last() =~= seq![direct, writer, child]);
    assert(all.drop_last().drop_last() =~= seq![direct, writer]);
    assert(all.drop_last().drop_last().drop_last() =~= seq![direct]);
    assert(all.drop_last().drop_last().drop_last().drop_last() =~= Seq::empty());
}

/// A child that could not be registered is told with what became of stopping it.
pub proof fn unregistered_child_is_told(
    root: Seq<char>,
    termination: Seq<char>,
    exit: Seq<char>,
)
    ensures
        unregistered_stopped(root, Ok(()), Ok(())) == (ChildRegistrationErrorView {
            message: root,
            exit_evidence: ChildExitEvidence::Proven,
        }),
        unregistered_stopped(root, Err(termination), Ok(())) == (ChildRegistrationErrorView {
            message: root
                + "; unregistered direct child termination request failed after observed exit: "@
                + termination,
            exit_evidence: ChildExitEvidence::Proven,
        }),
        unregistered_stopped(root, Ok(()), Err(exit)) == (ChildRegistrationErrorView {
            message: root + "; unregistered direct child exit could not be observed: "@ + exit,
            exit_evidence: ChildExitEvidence::Unproven,
        }),
        unregistered_stopped(root, Err(termination), Err(exit)) == (ChildRegistrationErrorView {
            message: root + "; unregistered direct child termination failed: "@ + termination
                + "; direct child exit could not be observed: "@ + exit,
            exit_evidence: ChildExitEvidence::Unproven,
        }),
{
}

/// Where the start of a live target stands after events, one after the other.
pub open spec fn started_after(
    step: LiveStartStepView,
    events: Seq<LiveStartEventView>,
) -> LiveStartStepView
    decreases events.len(),
{
    if events.len() == 0 {
        step
    } else {
        start_advanced(started_after(step, events.drop_last()), events.last())
    }
}

/// One more event.
proof fn lemma_started_after(
    step: LiveStartStepView,
    events: Seq<LiveStartEventView>,
    event: LiveStartEventView,
)
    ensures
        started_after(step, events.push(event)) == start_advanced(
            started_after(step, events),
            event,
        ),
{
    assert(events.push(event).drop_last() =~= events);
}

/// The events of a child that was spawned, captured and registered with its runtime.
pub open spec fn registered_child() -> Seq<LiveStartEventView> {
    Seq::empty().push(LiveStartEventView::Spawned(Ok(()))).push(
        LiveStartEventView::Captured { stdin: true, stdout: true, stderr: true },
    ).push(LiveStartEventView::ChildRegistered { refusal: None }).push(
        LiveStartEventView::RuntimeRegistered(Ok(())),
    )
}

/// A registered child has to be observed.
proof fn lemma_registered_child()
    ensures
        started_after(start_begun(1), registered_child()) is StartObserver,
{
    let none = Seq::<LiveStartEventView>::empty();
    let spawned = LiveStartEventView::Spawned(Ok(()));
    let captured = LiveStartEventView::Captured { stdin: true, stdout: true, stderr: true };
    let registered = LiveStartEventView::ChildRegistered { refusal: None };
    let runtime = LiveStartEventView::RuntimeRegistered(Ok(()));
    let begun = start_begun(1);
    lemma_started_after(begun, none, spawned);
    lemma_started_after(begun, none.push(spawned), captured);
    lemma_started_after(begun, none.push(spawned).push(captured), registered);
    lemma_started_after(
        begun,
        none.push(spawned).push(captured).push(registered),
        runtime,
    );
}

/// A live target whose first turn has the first position, whose child was spawned, captured and
/// registered, whose threads started, and whose observer took the runtime, has started.
pub proof fn undisturbed_start_starts()
    ensures
        started_after(
            start_begun(1),
            registered_child().push(LiveStartEventView::ObserverStarted(Ok(()))).push(
                LiveStartEventView::WriterStarted(Ok(())),
            ).push(LiveStartEventView::HandedOver { received: true }),
        ) is Started,
{
    let begun = start_begun(1);
    let observed = registered_child().push(LiveStartEventView::ObserverStarted(Ok(())));
    let written = observed.push(LiveStartEventView::WriterStarted(Ok(())));
    lemma_registered_child();
    lemma_started_after(
        begun,
        registered_child(),
        LiveStartEventView::ObserverStarted(Ok(())),
    );
    lemma_started_after(begun, observed, LiveStartEventView::WriterStarted(Ok(())));
    lemma_started_after(begun, written, LiveStartEventView::HandedOver { received: true });
}

/// Another first position, or a child that could not be spawned, leaves no writer.
pub proof fn unspawned_target_leaves_no_writer(position: u64, message: Seq<char>)
    ensures
        position != 1 ==> start_begun(position) == LiveStartStepView::Refused(
            TargetLiveStartErrorView::NoWriter("first live turn must have durable position 1"@),
        ),
        start_advanced(start_begun(1), LiveStartEventView::Spawned(Err(message)))
            == LiveStartStepView::Refused(TargetLiveStartErrorView::NoWriter(message)),
{
}

/// A child one of whose streams was not captured is stopped, and the start is refused with the
/// first of them and with what became of stopping it.
pub proof fn uncaptured_child_is_stopped(
    stdin: bool,
    stdout: bool,
    stderr: bool,
    termination: Seq<char>,
    exit: Seq<char>,
)
    requires
        !stdin || !stdout || !stderr,
    ensures
        ({
            let root = if !stdin {
                "direct live child stdin was not captured"@
            } else if !stdout {
                "direct live child stdout was not captured"@
            } else {
                "direct live child stderr was not captured"@
            };
            let stop = start_advanced(
                LiveStartStepView::Capture,
                LiveStartEventView::Captured { stdin, stdout, stderr },
            );
            let after = |termination: Result<(), Seq<char>>, exit: Result<(), Seq<char>>|
                start_advanced(stop, LiveStartEventView::SpawnedStopped { termination, exit });
            &&& after(Ok(()), Ok(())) == LiveStartStepView::Refused(
                TargetLiveStartErrorView::CleanupProvenExited(root),
            )
            &&& after(Err(termination), Ok(())) == LiveStartStepView::Refused(
                TargetLiveStartErrorView::CleanupProvenExited(
                    root + "; direct child termination request failed after observed exit: "@
                        + termination,
                ),
            )
            &&& after(Ok(()), Err(exit)) == LiveStartStepView::Refused(
                TargetLiveStartErrorView::CleanupUnproven(
                    root + "; direct child exit could not be observed: "@ + exit,
                ),
            )
            &&& after(Err(termination), Err(exit)) == LiveStartStepView::Refused(
                TargetLiveStartErrorView::CleanupUnproven(
                    root + "; direct child termination failed: "@ + termination
                        + "; direct child exit could not be observed: "@ + exit,
                ),
            )
        }),
{
}

/// A child that could not be registered refuses the start with what was proven of its exit.
pub proof fn unregistered_child_refuses_the_start(error: ChildRegistrationErrorView)
    ensures
        start_advanced(
            LiveStartStepView::RegisterChild,
            LiveStartEventView::ChildRegistered { refusal: Some(error) },
        ) == LiveStartStepView::Refused(
            if error.exit_evidence is Proven {
                TargetLiveStartErrorView::CleanupProvenExited(error.message)
            } else {
                TargetLiveStartErrorView::CleanupUnproven(error.message)
            },
        ),
{
}

/// A registered child whose observer or writer could not start is stopped, its runtime is removed,
/// and an observer that runs is waited for; the start is refused with the reason, as proven to have
/// exited exactly where its exit was waited for.
pub proof fn unserved_child_is_stopped(message: Seq<char>, wait: Result<(), Seq<char>>)
    ensures
        ({
            let begun = start_begun(1);
            let unobserved = registered_child().push(
                LiveStartEventView::ObserverStarted(Err(message)),
            );
            let unwritten = registered_child().push(
                LiveStartEventView::ObserverStarted(Ok(())),
            ).push(LiveStartEventView::WriterStarted(Err(message)));
            let stopped = LiveStartEventView::ChildStopped {
                termination: Ok(()),
                wait,
                removal: Ok(()),
            };
            let removed = LiveStartEventView::RuntimeRemoved(Ok(()));
            let joined = LiveStartEventView::ObserverJoined { panicked: false };
            let detail = match wait {
                Ok(()) => Seq::<char>::empty(),
                Err(failure) => "; direct-child cleanup failed: "@ + failure,
            };
            let refused = |root: Seq<char>|
                LiveStartStepView::Refused(
                    if wait is Ok {
                        TargetLiveStartErrorView::CleanupProvenExited(root)
                    } else {
                        TargetLiveStartErrorView::CleanupUnproven(root + detail)
                    },
                );
            &&& started_after(begun, unobserved.push(stopped).push(removed)) == refused(
                "live observer thread could not start: "@ + message,
            )
            &&& started_after(begun, unwritten.push(stopped).push(removed)) is JoinObserver
            &&& started_after(begun, unwritten.push(stopped).push(removed).push(joined)) == refused(
                "live input thread could not start: "@ + message,
            )
        }),
{
    let begun = start_begun(1);
    let observed = registered_child().push(LiveStartEventView::ObserverStarted(Ok(())));
    let unobserved = registered_child().push(LiveStartEventView::ObserverStarted(Err(message)));
    let unwritten = observed.push(LiveStartEventView::WriterStarted(Err(message)));
    let stopped = LiveStartEventView::ChildStopped { termination: Ok(()), wait, removal: Ok(()) };
    let removed = LiveStartEventView::RuntimeRemoved(Ok(()));
    let joined = LiveStartEventView::ObserverJoined { panicked: false };
    lemma_registered_child();
    lemma_three(Ok(()), wait, Ok(()));
    reveal_with_fuel(failures_joined, 2);
    lemma_started_after(
        begun,
        registered_child(),
        LiveStartEventView::ObserverStarted(Err(message)),
    );
    lemma_started_after(
        begun,
        registered_child(),
        LiveStartEventView::ObserverStarted(Ok(())),
    );
    lemma_started_after(begun, observed, LiveStartEventView::WriterStarted(Err(message)));
    lemma_started_after(begun, unobserved, stopped);
    lemma_started_after(begun, unobserved.push(stopped), removed);
    lemma_started_after(begun, unwritten, stopped);
    lemma_started_after(begun, unwritten.push(stopped), removed);
    lemma_started_after(begun, unwritten.push(stopped).push(removed), joined);
}

/// A child whose runtime could not be registered is stopped, and the start is refused with the
/// reason and with every part of the stop that failed, in their order.
pub proof fn unregistered_runtime_stops_its_child(
    message: Seq<char>,
    termination: Seq<char>,
    wait: Seq<char>,
    removal: Seq<char>,
)
    ensures
        ({
            let stop = start_advanced(
                LiveStartStepView::RegisterRuntime,
                LiveStartEventView::RuntimeRegistered(Err(message)),
            );
            let after = |
                termination: Result<(), Seq<char>>,
                wait: Result<(), Seq<char>>,
                removal: Result<(), Seq<char>>,
            |
                start_advanced(
                    stop,
                    LiveStartEventView::ChildStopped { termination, wait, removal },
                );
            let detail = message + "; direct-child cleanup failed: "@;
            &&& after(Ok(()), Ok(()), Ok(())) == LiveStartStepView::Refused(
                TargetLiveStartErrorView::CleanupProvenExited(message),
            )
            &&& after(Err(termination), Ok(()), Err(removal)) == LiveStartStepView::Refused(
                TargetLiveStartErrorView::CleanupProvenExited(
                    detail + (termination + "; "@ + removal),
                ),
            )
            &&& after(Err(termination), Err(wait), Err(removal)) == LiveStartStepView::Refused(
                TargetLiveStartErrorView::CleanupUnproven(
                    detail + (termination + "; "@ + wait + "; "@ + removal),
                ),
            )
            &&& after(Ok(()), Err(wait), Ok(())) == LiveStartStepView::Refused(
                TargetLiveStartErrorView::CleanupUnproven(detail + wait),
            )
        }),
{
    failures_are_told_in_order(termination, wait, removal);
    lemma_three(Ok(()), Ok(()), Ok(()));
    lemma_three(Err(termination), Ok(()), Err(removal));
    lemma_three(Err(termination), Err(wait), Err(removal));
    lemma_three(Ok(()), Err(wait), Ok(()));
}

/// A further cleanup that failed is told behind the reason, and an observer that panicked too; what
/// was proven of the exit stays as it was.
pub proof fn further_cleanup_is_told(root: Seq<char>, message: Seq<char>, panicked: bool)
    ensures
        ({
            let removed = LiveStartEventView::RuntimeRemoved(Err(message));
            let joined = LiveStartEventView::ObserverJoined { panicked };
            let proven = TargetLiveStartErrorView::CleanupProvenExited(root);
            let unproven = TargetLiveStartErrorView::CleanupUnproven(root);
            let told = root + "; startup cleanup failed: "@ + message;
            let after = if panicked {
                root + "; startup cleanup failed: "@
                    + "live observer panicked during startup cleanup"@
            } else {
                root
            };
            &&& start_advanced(
                LiveStartStepView::RemoveRuntime { failure: proven, join_observer: false },
                removed,
            ) == LiveStartStepView::Refused(TargetLiveStartErrorView::CleanupProvenExited(told))
            &&& start_advanced(
                LiveStartStepView::RemoveRuntime { failure: unproven, join_observer: false },
                removed,
            ) == LiveStartStepView::Refused(TargetLiveStartErrorView::CleanupUnproven(told))
            &&& start_advanced(
                LiveStartStepView::RemoveRuntime { failure: proven, join_observer: true },
                removed,
            ) == (LiveStartStepView::JoinObserver {
                failure: TargetLiveStartErrorView::CleanupProvenExited(told),
            })
            &&& start_advanced(LiveStartStepView::JoinObserver { failure: proven }, joined)
                == LiveStartStepView::Refused(TargetLiveStartErrorView::CleanupProvenExited(after))
            &&& start_advanced(LiveStartStepView::JoinObserver { failure: unproven }, joined)
                == LiveStartStepView::Refused(TargetLiveStartErrorView::CleanupUnproven(after))
        }),
{
}

/// An observer that stopped before it took the runtime refuses the start, with what became of the
/// cleanup and of the observer.
pub proof fn lost_observer_refuses_the_start(
    evidence: ChildExitEvidence,
    message: Seq<char>,
)
    ensures
        ({
            let lost = start_advanced(
                LiveStartStepView::HandOver,
                LiveStartEventView::HandedOver { received: false },
            );
            let after = |result: Result<(), Seq<char>>, panicked: bool|
                start_advanced(
                    start_advanced(lost, LiveStartEventView::CleanedUp { result, evidence }),
                    LiveStartEventView::ObserverJoined { panicked },
                );
            let root = "live observer stopped before it received the runtime"@;
            let panic = "live observer panicked during startup cleanup"@;
            let told = root + "; startup cleanup failed: "@;
            let refused = |words: Seq<char>|
                LiveStartStepView::Refused(
                    if evidence is Proven {
                        TargetLiveStartErrorView::CleanupProvenExited(words)
                    } else {
                        TargetLiveStartErrorView::CleanupUnproven(words)
                    },
                );
            &&& lost is CleanUp
            &&& after(Ok(()), false) == refused(root)
            &&& after(Err(message), false) == refused(
                told + ("live observer cleanup"@ + "; cleanup failed: "@ + message),
            )
            &&& after(Ok(()), true) == refused(
                told + ("live observer cleanup"@ + "; cleanup failed: "@ + panic),
            )
            &&& after(Err(message), true) == refused(
                told + ("live observer cleanup"@ + "; first cleanup failure: "@ + message
                    + "; second cleanup failure: "@ + panic),
            )
        }),
{
}

/// A cleanup that failed names each part that failed, in their order, and the child first.
pub proof fn failed_cleanup_names_its_parts(
    termination: Seq<char>,
    wait: Seq<char>,
    writer: Seq<char>,
    child: Seq<char>,
    runtime: Seq<char>,
)
    ensures
        cleanup_concluded(
            CleanupMode::ObservedExit,
            Err(termination),
            Err(wait),
            Err(writer),
            Err(child),
            Err(runtime),
        ) == (
            Err::<(), _>(
                "live runtime cleanup"@ + ": "@ + (writer + "; "@ + child + "; "@ + runtime),
            ),
            ChildExitEvidence::Proven,
        ),
        cleanup_concluded(
            CleanupMode::Terminate,
            Err(termination),
            Err(wait),
            Ok(()),
            Ok(()),
            Ok(()),
        ) == (
            Err::<(), _>(
                "live runtime cleanup"@ + ": "@ + ("direct live child cleanup"@ + ": "@ + (
                termination + "; "@ + wait)),
            ),
            ChildExitEvidence::Unproven,
        ),
{
    let none = Seq::<Seq<char>>::empty();
    reveal_with_fuel(failures_among, 5);
    reveal_with_fuel(failures_joined, 4);
    let left = seq![Ok::<(), Seq<char>>(()), Err(writer), Err(child), Err(runtime)];
    assert(left.drop_last() =~= seq![Ok::<(), Seq<char>>(()), Err(writer), Err(child)]);
    assert(left.drop_last().drop_last() =~= seq![Ok::<(), Seq<char>>(()), Err(writer)]);
    assert(left.drop_last().drop_last().drop_last() =~= seq![Ok::<(), Seq<char>>(())]);
    assert(left.drop_last().drop_last().drop_last().drop_last() =~= Seq::empty());
    assert(failures_among(left) =~= none.push(writer).push(child).push(runtime));
    assert(none.push(writer).push(child).push(runtime).drop_last() =~= none.push(writer).push(
        child,
    ));
    assert(none.push(writer).push(child).drop_last() =~= none.push(writer));
    let pair = seq![Err::<(), Seq<char>>(termination), Err(wait)];
    assert(pair.drop_last() =~= seq![Err::<(), Seq<char>>(termination)]);
    assert(pair.drop_last().drop_last() =~= Seq::empty());
    assert(failures_among(pair) =~= none.push(termination).push(wait));
    assert(none.push(termination).push(wait).drop_last() =~= none.push(termination));
    let direct = many_combined("direct live child cleanup"@, pair);
    let right = seq![direct, Ok(()), Ok(()), Ok(())];
    assert(right.drop_last() =~= seq![direct, Ok(()), Ok(())]);
    assert(right.drop_last().drop_last() =~= seq![direct, Ok(())]);
    assert(right.drop_last().drop_last().drop_last() =~= seq![direct]);
    assert(right.drop_last().drop_last().drop_last().drop_last() =~= Seq::empty());
    assert(failures_among(right) =~= none.push(direct->Err_0));
}

} // verus!
