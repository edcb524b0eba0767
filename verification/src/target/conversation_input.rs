//! Orders structured user turns by their durable positions for the input of a live child.

use vstd::prelude::*;
use vstd::string::*;

use crate::contract::target::{TargetLiveTurn, TargetLiveTurnView};
use crate::identifier::{display_uuid, uuid_text};
use crate::json::{json_parsed, json_written, member, write_json, Json, JsonView};
use crate::keyed::{
    distinct, keyed, lemma_absent, lemma_push, lemma_remove, lemma_row, lemma_update, lookup,
};
use crate::text::{text_before, views};

verus! {

/// What the writer of a live child is told.
#[derive(Debug, PartialEq, Eq)]
pub enum WriterCommand {
    Turn(TargetLiveTurn),
    Close { through_position: u64 },
    Cancel,
}

/// The mathematical content of [`WriterCommand`].
#[verifier::ext_equal]
pub enum WriterCommandView {
    Turn(TargetLiveTurnView),
    Close { through_position: u64 },
    Cancel,
}

impl View for WriterCommand {
    type V = WriterCommandView;

    open spec fn view(&self) -> WriterCommandView {
        match *self {
            WriterCommand::Turn(value) => WriterCommandView::Turn(value@),
            WriterCommand::Close { through_position } => WriterCommandView::Close {
                through_position,
            },
            WriterCommand::Cancel => WriterCommandView::Cancel,
        }
    }
}

impl Clone for WriterCommand {
    fn clone(&self) -> (copy: Self)
        ensures
            copy@ == self@,
    {
        match self {
            WriterCommand::Turn(value) => WriterCommand::Turn(value.clone()),
            WriterCommand::Close { through_position } => WriterCommand::Close {
                through_position: *through_position,
            },
            WriterCommand::Cancel => WriterCommand::Cancel,
        }
    }
}

/// What the writer of a live child reports.
#[derive(Debug, PartialEq, Eq)]
pub enum WriterReport {
    Prepared(TargetLiveTurn),
    Closed,
    Failed(String),
}

/// The mathematical content of [`WriterReport`].
#[verifier::ext_equal]
pub enum WriterReportView {
    Prepared(TargetLiveTurnView),
    Closed,
    Failed(Seq<char>),
}

impl View for WriterReport {
    type V = WriterReportView;

    open spec fn view(&self) -> WriterReportView {
        match *self {
            WriterReport::Prepared(value) => WriterReportView::Prepared(value@),
            WriterReport::Closed => WriterReportView::Closed,
            WriterReport::Failed(value) => WriterReportView::Failed(value@),
        }
    }
}

impl Clone for WriterReport {
    fn clone(&self) -> (copy: Self)
        ensures
            copy@ == self@,
    {
        match self {
            WriterReport::Prepared(value) => WriterReport::Prepared(value.clone()),
            WriterReport::Closed => WriterReport::Closed,
            WriterReport::Failed(value) => WriterReport::Failed(value.clone()),
        }
    }
}

/// What the writer does next.
#[derive(Debug, PartialEq, Eq)]
pub enum InputStep {
    /// The next turn is to be written.
    Write(TargetLiveTurn),
    /// Every turn up to the last admitted one is written: the input ends.
    Closed,
    /// Nothing can be written before a further command.
    Await,
}

/// The mathematical content of [`InputStep`].
#[verifier::ext_equal]
pub enum InputStepView {
    Write(TargetLiveTurnView),
    Closed,
    Await,
}

impl View for InputStep {
    type V = InputStepView;

    open spec fn view(&self) -> InputStepView {
        match *self {
            InputStep::Write(value) => InputStepView::Write(value@),
            InputStep::Closed => InputStepView::Closed,
            InputStep::Await => InputStepView::Await,
        }
    }
}

impl Clone for InputStep {
    fn clone(&self) -> (copy: Self)
        ensures
            copy@ == self@,
    {
        match self {
            InputStep::Write(value) => InputStep::Write(value.clone()),
            InputStep::Closed => InputStep::Closed,
            InputStep::Await => InputStep::Await,
        }
    }
}

/// The mathematical content of [`InputQueue`].
#[verifier::ext_equal]
pub struct InputQueueView {
    pub pending: Map<u64, TargetLiveTurnView>,
    pub next_position: u64,
    pub close_through: Option<u64>,
}

impl InputQueueView {
    /// Whether every pending turn stands at its own position.
    pub open spec fn positioned(self) -> bool {
        forall|position: u64| #[trigger]
            self.pending.contains_key(position) ==> self.pending[position].position == position
    }

    /// What the writer does next, and the queue after it.
    pub open spec fn step(self) -> (InputQueueView, InputStepView) {
        if self.pending.contains_key(self.next_position) {
            (
                InputQueueView { pending: self.pending.remove(self.next_position), ..self },
                InputStepView::Write(self.pending[self.next_position]),
            )
        } else if self.close_through is Some && self.next_position > self.close_through->Some_0 {
            (self, InputStepView::Closed)
        } else {
            (self, InputStepView::Await)
        }
    }

    /// What a command does to the queue, and whether the writer goes on.
    pub open spec fn receive(self, command: WriterCommandView) -> (
        InputQueueView,
        Result<bool, Seq<char>>,
    ) {
        match command {
            WriterCommandView::Turn(turn) => (
                InputQueueView { pending: self.pending.insert(turn.position, turn), ..self },
                if self.pending.contains_key(turn.position) {
                    Err("live input received two turns at one durable position"@)
                } else {
                    Ok(true)
                },
            ),
            WriterCommandView::Close { through_position } => (
                InputQueueView { close_through: Some(through_position), ..self },
                Ok(true),
            ),
            WriterCommandView::Cancel => (self, Ok(false)),
        }
    }
}

spec fn position_key() -> spec_fn(TargetLiveTurnView) -> u64 {
    |turn: TargetLiveTurnView| turn.position
}

/// The turns that wait to be written to a live child, by their durable positions.
pub struct InputQueue {
    pending: Vec<TargetLiveTurn>,
    next_position: u64,
    close_through: Option<u64>,
}

impl View for InputQueue {
    type V = InputQueueView;

    closed spec fn view(&self) -> InputQueueView {
        InputQueueView {
            pending: keyed(views(self.pending@), position_key()),
            next_position: self.next_position,
            close_through: self.close_through,
        }
    }
}

impl InputQueue {
    /// Whether no position is taken twice.
    pub closed spec fn well_formed(&self) -> bool {
        distinct(views(self.pending@), position_key())
    }

    /// A queue that begins with the first turn.
    pub fn new(first_turn: TargetLiveTurn) -> (queue: InputQueue)
        ensures
            queue.well_formed(),
            queue@ == (InputQueueView {
                pending: Map::empty().insert(first_turn@.position, first_turn@),
                next_position: first_turn@.position,
                close_through: None,
            }),
    {
        let next_position: u64 = first_turn.position;
        let mut pending: Vec<TargetLiveTurn> = Vec::new();
        let ghost none = views(pending@);
        proof {
            assert(none =~= Seq::empty());
            lemma_absent(none, position_key(), first_turn@.position);
            lemma_push(none, position_key(), first_turn@);
            assert(keyed(none, position_key()) =~= Map::empty());
            assert(views(pending@.push(first_turn)) =~= none.push(first_turn@));
        }
        pending.push(first_turn);
        InputQueue { pending, next_position, close_through: None }
    }

    /// The place of the turn at a position.
    fn pending_index(&self, position: u64) -> (found: Option<usize>)
        requires
            self.well_formed(),
        ensures
            match found {
                Some(index) => index < self.pending@.len() && self.pending@[index as int]@.position
                    == position && lookup(self@.pending, position) == Some(
                    self.pending@[index as int]@,
                ),
                None => lookup(self@.pending, position) == None::<TargetLiveTurnView>,
            },
    {
        let ghost rows = views(self.pending@);
        let mut index: usize = 0;
        while index < self.pending.len()
            invariant
                index <= self.pending@.len(),
                rows == views(self.pending@),
                self.well_formed(),
                forall|i: int| 0 <= i < index ==> position_key()(#[trigger] rows[i]) != position,
            decreases self.pending@.len() - index,
        {
            proof {
                assert(rows[index as int] == self.pending@[index as int]@);
            }
            if self.pending[index].position == position {
                proof {
                    lemma_row(rows, position_key(), index as int);
                }
                return Some(index);
            }
            index = index + 1;
        }
        proof {
            lemma_absent(rows, position_key(), position);
        }
        None
    }

    /// Tells what the writer does next. A turn that is to be written leaves the queue.
    pub fn step(&mut self) -> (step: InputStep)
        requires
            old(self).well_formed(),
        ensures
            final(self).well_formed(),
            (final(self)@, step@) == old(self)@.step(),
    {
        match self.pending_index(self.next_position) {
            Some(index) => {
                let ghost rows = views(self.pending@);
                proof {
                    lemma_remove(rows, position_key(), index as int);
                    assert(views(self.pending@.remove(index as int)) =~= rows.remove(
                        index as int,
                    ));
                }
                let turn = self.pending.remove(index);
                InputStep::Write(turn)
            },
            None => match self.close_through {
                Some(position) => {
                    if self.next_position > position {
                        InputStep::Closed
                    } else {
                        InputStep::Await
                    }
                },
                None => InputStep::Await,
            },
        }
    }

    /// Moves on after a turn was written.
    pub fn written(&mut self) -> (moved: Result<(), String>)
        requires
            old(self).well_formed(),
        ensures
            final(self).well_formed(),
            match moved {
                Ok(()) => old(self)@.next_position < u64::MAX && final(self)@ == (InputQueueView {
                    next_position: (old(self)@.next_position + 1) as u64,
                    ..old(self)@
                }),
                Err(message) => old(self)@.next_position == u64::MAX && final(self)@ == old(self)@
                    && message@ == "live turn position is exhausted"@,
            },
    {
        if self.next_position == u64::MAX {
            return Err("live turn position is exhausted".to_owned());
        }
        self.next_position = self.next_position + 1;
        Ok(())
    }

    /// Takes one command, and tells whether the writer goes on. A turn at a position that is
    /// already taken is refused, and takes it.
    pub fn receive(&mut self, command: WriterCommand) -> (goes_on: Result<bool, String>)
        requires
            old(self).well_formed(),
        ensures
            final(self).well_formed(),
            final(self)@ == old(self)@.receive(command@).0,
            crate::text::told(goes_on) == old(self)@.receive(command@).1,
    {
        match command {
            WriterCommand::Turn(turn) => {
                let ghost rows = views(self.pending@);
                match self.pending_index(turn.position) {
                    Some(index) => {
                        proof {
                            lemma_update(rows, position_key(), index as int, turn@);
                            assert(views(self.pending@.update(index as int, turn)) =~= rows.update(
                                index as int,
                                turn@,
                            ));
                        }
                        self.pending.set(index, turn);
                        Err("live input received two turns at one durable position".to_owned())
                    },
                    None => {
                        proof {
                            lemma_push(rows, position_key(), turn@);
                            assert(views(self.pending@.push(turn)) =~= rows.push(turn@));
                        }
                        self.pending.push(turn);
                        Ok(true)
                    },
                }
            },
            WriterCommand::Close { through_position } => {
                self.close_through = Some(through_position);
                Ok(true)
            },
            WriterCommand::Cancel => Ok(false),
        }
    }
}

/// Whether the writer may begin: only with the permission that follows the durable Running
/// transition. Nothing received means that the permission can no longer come.
pub fn running_permission(received: Option<Result<(), String>>) -> (permitted: Result<(), String>)
    ensures
        match received {
            Some(Ok(())) => permitted is Ok,
            Some(Err(message)) => permitted matches Err(told) && told@ == message@,
            None => permitted matches Err(told) && told@
                == "Control did not grant durable Running permission to the live child"@,
        },
{
    match received {
        Some(Ok(())) => Ok(()),
        Some(Err(message)) => Err(message),
        None => Err(
            "Control did not grant durable Running permission to the live child".to_owned(),
        ),
    }
}

/// The frame of one turn: a user message with one text block, under the identity of the turn.
pub open spec fn turn_frame(turn_id: u128, prompt: Seq<char>) -> JsonView {
    JsonView::Object(
        seq![
            (
                "message"@,
                JsonView::Object(
                    seq![
                        (
                            "content"@,
                            JsonView::Array(
                                seq![
                                    JsonView::Object(
                                        seq![
                                            ("text"@, JsonView::Text(prompt)),
                                            ("type"@, JsonView::Text("text"@)),
                                        ],
                                    ),
                                ],
                            ),
                        ),
                        ("role"@, JsonView::Text("user"@)),
                    ],
                ),
            ),
            ("type"@, JsonView::Text("user"@)),
            ("uuid"@, JsonView::Text(uuid_text(turn_id))),
        ],
    )
}

/// The names of a frame are in order.
proof fn lemma_frame_writable(turn_id: u128, prompt: Seq<char>)
    ensures
        turn_frame(turn_id, prompt).writable(),
        turn_frame(turn_id, prompt).nests_within(100),
{
    lemma_names_in_order();
    reveal_with_fuel(JsonView::writable, 2);
    let block = JsonView::Object(
        seq![("text"@, JsonView::Text(prompt)), ("type"@, JsonView::Text("text"@))],
    );
    assert(block.writable());
    let content = JsonView::Array(seq![block]);
    assert(content.writable());
    let message = JsonView::Object(
        seq![("content"@, content), ("role"@, JsonView::Text("user"@))],
    );
    assert(message.writable());
    assert(turn_frame(turn_id, prompt).writable());
    reveal_with_fuel(JsonView::nests_within, 6);
    assert(block.nests_within(97));
    assert(content.nests_within(98));
    assert(message.nests_within(99));
}

/// The order of the names in a frame.
proof fn lemma_names_in_order()
    ensures
        text_before("text"@, "type"@),
        text_before("content"@, "role"@),
        text_before("message"@, "type"@),
        text_before("message"@, "uuid"@),
        text_before("type"@, "uuid"@),
{
    reveal_strlit("text");
    reveal_strlit("type");
    reveal_strlit("content");
    reveal_strlit("role");
    reveal_strlit("message");
    reveal_strlit("uuid");
    vstd::utf8::is_ascii_chars_encode_utf8("text"@);
    vstd::utf8::is_ascii_chars_encode_utf8("type"@);
    vstd::utf8::is_ascii_chars_encode_utf8("content"@);
    vstd::utf8::is_ascii_chars_encode_utf8("role"@);
    vstd::utf8::is_ascii_chars_encode_utf8("message"@);
    vstd::utf8::is_ascii_chars_encode_utf8("uuid"@);
    reveal_with_fuel(crate::text::bytes_before, 3);
}

/// Builds the frame of one turn.
fn frame(turn: &TargetLiveTurn) -> (json: Json)
    ensures
        json@ == turn_frame(turn@.turn_id.0, turn@.prompt),
{
    let mut block: Vec<(String, Json)> = Vec::new();
    member(&mut block, "text", Json::Text(turn.prompt.clone()));
    member(&mut block, "type", Json::Text("text".to_owned()));
    let block = Json::Object(block);
    proof {
        assert(block@->Object_0 =~= seq![
            ("text"@, JsonView::Text(turn@.prompt)),
            ("type"@, JsonView::Text("text"@)),
        ]);
    }
    let mut blocks: Vec<Json> = Vec::new();
    blocks.push(block);
    let content = Json::Array(blocks);
    proof {
        assert(content@->Array_0 =~= seq![block@]);
    }
    let mut message: Vec<(String, Json)> = Vec::new();
    member(&mut message, "content", content);
    member(&mut message, "role", Json::Text("user".to_owned()));
    let message = Json::Object(message);
    proof {
        assert(message@->Object_0 =~= seq![
            ("content"@, content@),
            ("role"@, JsonView::Text("user"@)),
        ]);
    }
    let mut frame: Vec<(String, Json)> = Vec::new();
    member(&mut frame, "message", message);
    member(&mut frame, "type", Json::Text("user".to_owned()));
    member(&mut frame, "uuid", Json::Text(display_uuid(turn.turn_id.0)));
    let json = Json::Object(frame);
    proof {
        assert(json@->Object_0 =~= turn_frame(turn@.turn_id.0, turn@.prompt)->Object_0);
    }
    json
}

/// Writes the frame of one turn as one line of JSON, which reads back to the frame.
pub fn encode(turn: &TargetLiveTurn) -> (line: String)
    ensures
        line@ == json_written(turn_frame(turn@.turn_id.0, turn@.prompt)),
        json_parsed(line@) == Ok::<JsonView, Seq<char>>(
            turn_frame(turn@.turn_id.0, turn@.prompt),
        ),
{
    proof {
        lemma_frame_writable(turn@.turn_id.0, turn@.prompt);
    }
    write_json(&frame(turn))
}

/// Turns are written in the order of their positions without a gap: the turn that is written is the
/// one at the next position, and nothing is written while that one is missing.
pub proof fn turns_are_written_in_order(queue: InputQueueView)
    requires
        queue.positioned(),
    ensures
        queue.step().0.positioned(),
        queue.step().1 matches InputStepView::Write(turn) ==> turn.position == queue.next_position,
        queue.step().1 is Write <==> queue.pending.contains_key(queue.next_position),
        queue.step().0.next_position == queue.next_position,
{
}

/// The input ends only after every position up to the last admitted one was passed.
pub proof fn input_ends_after_the_last_turn(queue: InputQueueView)
    requires
        queue.step().1 is Closed,
    ensures
        queue.close_through is Some,
        queue.next_position > queue.close_through->Some_0,
        !queue.pending.contains_key(queue.next_position),
{
}

/// Commands keep every pending turn at its own position.
pub proof fn commands_keep_positions(queue: InputQueueView, command: WriterCommandView)
    requires
        queue.positioned(),
    ensures
        queue.receive(command).0.positioned(),
        queue.receive(command).0.next_position == queue.next_position,
{
}

} // verus!
