//! The command lines and turns that the deterministic target accepts.

use vstd::prelude::*;

use crate::contract::target::{
    TargetIntent, TargetSessionId, PROVIDER,
};
use crate::identifier::uuid_text;
use crate::json::{json_parsed, parse_json, Json, JsonView};
use crate::target::command::{arguments, fixed, fixed_arguments, session_arguments, InvocationMode};
use crate::target::conversation_input::turn_frame;
use crate::text::{joined, same_text, views};

verus! {

/// Whether two texts agree place by place up to a length.
fn same_start(left: &Vec<String>, right: &Vec<String>, length: usize) -> (same: bool)
    requires
        length <= left@.len(),
        length == right@.len(),
    ensures
        same == (views(left@).take(length as int) == views(right@)),
{
    let mut index: usize = 0;
    while index < length
        invariant
            index <= length,
            length <= left@.len(),
            length == right@.len(),
            forall|i: int| 0 <= i < index ==> (#[trigger] left@[i])@ == right@[i]@,
        decreases length - index,
    {
        if !same_text(left[index].as_str(), right[index].as_str()) {
            proof {
                let start = views(left@).take(length as int);
                assert(start[index as int] == left@[index as int]@);
                assert(views(right@)[index as int] == right@[index as int]@);
            }
            return false;
        }
        index = index + 1;
    }
    proof {
        assert(views(left@).take(length as int) =~= views(right@)) by {
            assert forall|i: int| 0 <= i < length implies views(left@).take(
                length as int,
            )[i] == #[trigger] views(right@)[i] by {
                assert(left@[i]@ == right@[i]@);
            }
        }
    }
    true
}

/// A review that the target was asked for.
#[derive(Debug, PartialEq, Eq)]
pub struct Invocation {
    pub session: String,
    pub model: String,
    pub resume: bool,
}

/// The mathematical content of [`Invocation`].
#[verifier::ext_equal]
pub struct InvocationView {
    pub session: Seq<char>,
    pub model: Seq<char>,
    pub resume: bool,
}

impl View for Invocation {
    type V = InvocationView;

    open spec fn view(&self) -> InvocationView {
        InvocationView { session: self.session@, model: self.model@, resume: self.resume }
    }
}

/// What a command line asks for: exactly the fixed arguments of a review, then a new or a resumed
/// session.
pub open spec fn invoked(line: Seq<Seq<char>>) -> Result<InvocationView, Seq<char>> {
    let fixed = fixed_arguments(InvocationMode::OneShot);
    let length = fixed.len() as int;
    if line.len() != length + 2 {
        Err(PROVIDER@ + " argv did not have the exact supported length"@)
    } else if line.take(length) != fixed {
        Err(PROVIDER@ + " argv did not match the exact Opus read-only profile"@)
    } else if line[length] == "--session-id"@ {
        Ok(InvocationView { session: line[length + 1], model: "opus"@, resume: false })
    } else if line[length] == "--resume"@ {
        Ok(InvocationView { session: line[length + 1], model: "opus"@, resume: true })
    } else {
        Err(PROVIDER@ + " argv did not select new or exact resume"@)
    }
}

impl Invocation {
    /// Reads a command line.
    pub fn parse(line: &Vec<String>) -> (parsed: Result<Invocation, String>)
        ensures
            crate::text::told(parsed) == invoked(views(line@)),
    {
        let fixed = fixed(InvocationMode::OneShot);
        let length: usize = fixed.len();
        proof {
            assert(views(fixed@).len() == length);
            assert(views(line@).len() == line@.len());
            assert(length == 16);
        }
        if line.len() != length + 2 {
            return Err(joined(PROVIDER, " argv did not have the exact supported length"));
        }
        if !same_start(line, &fixed, length) {
            return Err(joined(PROVIDER, " argv did not match the exact Opus read-only profile"));
        }
        let resume = if same_text(line[length].as_str(), "--session-id") {
            false
        } else if same_text(line[length].as_str(), "--resume") {
            true
        } else {
            return Err(joined(PROVIDER, " argv did not select new or exact resume"));
        };
        Ok(Invocation { session: line[length + 1].clone(), model: "opus".to_owned(), resume })
    }
}

/// A conversation that the target was asked for.
#[derive(Debug, PartialEq, Eq)]
pub struct LiveInvocation {
    pub session: String,
    pub model: String,
}

/// The mathematical content of [`LiveInvocation`].
#[verifier::ext_equal]
pub struct LiveInvocationView {
    pub session: Seq<char>,
    pub model: Seq<char>,
}

impl View for LiveInvocation {
    type V = LiveInvocationView;

    open spec fn view(&self) -> LiveInvocationView {
        LiveInvocationView { session: self.session@, model: self.model@ }
    }
}

/// What a command line asks for: exactly the fixed arguments of a conversation, then a new or a
/// resumed session.
pub open spec fn live_invoked(line: Seq<Seq<char>>) -> Result<LiveInvocationView, Seq<char>> {
    let fixed = fixed_arguments(InvocationMode::Live);
    let length = fixed.len() as int;
    if line.len() != length + 2 || line.take(length) != fixed {
        Err(PROVIDER@ + " argv did not match the exact structured live profile"@)
    } else if line[length] == "--session-id"@ || line[length] == "--resume"@ {
        Ok(LiveInvocationView { session: line[length + 1], model: "opus"@ })
    } else {
        Err(PROVIDER@ + " argv did not select new or exact resume"@)
    }
}

impl LiveInvocation {
    /// Reads a command line.
    pub fn parse(line: &Vec<String>) -> (parsed: Result<LiveInvocation, String>)
        ensures
            crate::text::told(parsed) == live_invoked(views(line@)),
    {
        let fixed = fixed(InvocationMode::Live);
        let length: usize = fixed.len();
        proof {
            assert(views(fixed@).len() == length);
            assert(views(line@).len() == line@.len());
            assert(length == 20);
        }
        if line.len() != length + 2 || !same_start(line, &fixed, length) {
            return Err(joined(PROVIDER, " argv did not match the exact structured live profile"));
        }
        if same_text(line[length].as_str(), "--session-id") || same_text(
            line[length].as_str(),
            "--resume",
        ) {
            Ok(LiveInvocation { session: line[length + 1].clone(), model: "opus".to_owned() })
        } else {
            Err(joined(PROVIDER, " argv did not select new or exact resume"))
        }
    }
}

/// A turn as it arrives.
#[derive(Debug, PartialEq, Eq)]
pub struct LiveTurn {
    pub uuid: String,
    pub prompt: String,
}

/// The mathematical content of [`LiveTurn`].
#[verifier::ext_equal]
pub struct LiveTurnView {
    pub uuid: Seq<char>,
    pub prompt: Seq<char>,
}

impl View for LiveTurn {
    type V = LiveTurnView;

    open spec fn view(&self) -> LiveTurnView {
        LiveTurnView { uuid: self.uuid@, prompt: self.prompt@ }
    }
}

/// The text of the first block of a message.
pub open spec fn first_text(value: JsonView) -> Option<Seq<char>> {
    match value.object_of("message"@) {
        None => None,
        Some(message) => match message.items_of("content"@) {
            None => None,
            Some(content) => if content.len() == 0 {
                None
            } else {
                content[0].text_of("text"@)
            },
        },
    }
}

/// The turn that a value is, if it is one.
pub open spec fn turn_told(value: JsonView) -> Result<LiveTurnView, Seq<char>> {
    if value.text_of("type"@) != Some("user"@) {
        Err("live input event was not a user message"@)
    } else {
        match value.text_of("uuid"@) {
            None => Err("live input omitted uuid"@),
            Some(uuid) => match first_text(value) {
                None => Err("live input omitted text content"@),
                Some(prompt) => Ok(LiveTurnView { uuid, prompt }),
            },
        }
    }
}

/// What a line tells.
pub open spec fn turn_arrived(line: Seq<char>) -> Result<LiveTurnView, Seq<char>> {
    match json_parsed(line) {
        Err(message) => Err(message),
        Ok(value) => turn_told(value),
    }
}

impl LiveTurn {
    /// Reads a value as a turn.
    pub fn from_json(value: &Json) -> (parsed: Result<LiveTurn, String>)
        ensures
            crate::text::told(parsed) == turn_told(value@),
    {
        if !value.text_is("type", "user") {
            return Err("live input event was not a user message".to_owned());
        }
        let uuid = match value.text_of("uuid") {
            Some(uuid) => uuid,
            None => {
                return Err("live input omitted uuid".to_owned());
            },
        };
        let prompt = match value.object_of("message") {
            None => None,
            Some(message) => match message.items_of("content") {
                None => None,
                Some(content) => {
                    proof {
                        assert(views(content@).len() == content@.len());
                    }
                    if content.len() == 0 {
                        None
                    } else {
                        proof {
                            assert(views(content@)[0] == content@[0]@);
                        }
                        content[0].text_of("text")
                    }
                },
            },
        };
        match prompt {
            Some(prompt) => Ok(LiveTurn { uuid, prompt }),
            None => Err("live input omitted text content".to_owned()),
        }
    }

    /// Reads a line as a turn.
    pub fn parse(line: &str) -> (parsed: Result<LiveTurn, String>)
        ensures
            crate::text::told(parsed) == turn_arrived(line@),
    {
        match parse_json(line) {
            Err(message) => Err(message),
            Ok(value) => LiveTurn::from_json(&value),
        }
    }
}

/// The command line of a review is accepted, and names the session it was built for.
pub proof fn review_line_is_accepted(intent: TargetIntent, intended: TargetSessionId)
    ensures
        invoked(arguments(InvocationMode::OneShot, intent, intended)) == Ok::<_, Seq<char>>(
            InvocationView {
                session: uuid_text(
                    match intent {
                        TargetIntent::New => intended.0,
                        TargetIntent::ResumeExact { session_id } => session_id.0,
                    },
                ),
                model: "opus"@,
                resume: intent is ResumeExact,
            },
        ),
{
    let line = arguments(InvocationMode::OneShot, intent, intended);
    let fixed = fixed_arguments(InvocationMode::OneShot);
    assert(line.take(fixed.len() as int) =~= fixed);
    assert(line[fixed.len() as int] == session_arguments(intent, intended)[0]);
    assert(line[fixed.len() as int + 1] == session_arguments(intent, intended)[1]);
    reveal_strlit("--session-id");
    reveal_strlit("--resume");
}

/// The command line of a conversation is accepted, and names the session it was built for.
pub proof fn conversation_line_is_accepted(intent: TargetIntent, intended: TargetSessionId)
    ensures
        live_invoked(arguments(InvocationMode::Live, intent, intended)) == Ok::<_, Seq<char>>(
            LiveInvocationView {
                session: uuid_text(
                    match intent {
                        TargetIntent::New => intended.0,
                        TargetIntent::ResumeExact { session_id } => session_id.0,
                    },
                ),
                model: "opus"@,
            },
        ),
{
    let line = arguments(InvocationMode::Live, intent, intended);
    let fixed = fixed_arguments(InvocationMode::Live);
    assert(line.take(fixed.len() as int) =~= fixed);
    assert(line[fixed.len() as int] == session_arguments(intent, intended)[0]);
    assert(line[fixed.len() as int + 1] == session_arguments(intent, intended)[1]);
}

/// The frame of a turn reads back to the identity and the prompt of the turn.
pub proof fn turn_frame_reads_back(turn_id: u128, prompt: Seq<char>)
    ensures
        turn_told(turn_frame(turn_id, prompt)) == Ok::<_, Seq<char>>(
            LiveTurnView { uuid: uuid_text(turn_id), prompt },
        ),
{
    reveal_with_fuel(crate::json::first_member, 4);
    reveal_strlit("type");
    reveal_strlit("uuid");
    reveal_strlit("message");
    reveal_strlit("content");
    reveal_strlit("text");
    reveal_strlit("role");
    assert("message"@.len() != "type"@.len());
    assert("type"@[0] != "uuid"@[0]);
    assert("message"@.len() != "uuid"@.len());
    let frame = turn_frame(turn_id, prompt);
    let members = frame->Object_0;
    assert(members.drop_first()[0] == members[1]);
    assert(members.drop_first().drop_first()[0] == members[2]);
    assert(frame.text_of("type"@) == Some("user"@));
    assert(frame.text_of("uuid"@) == Some(uuid_text(turn_id)));
    assert(first_text(frame) == Some(prompt));
}

} // verus!
