//! What the events of a scripted turn hold, member by member.

use vstd::prelude::*;

use crate::fixture::event::{
    assistant_event, delta_event, live_result_event, replay_event, telemetry_event,
    tool_result_event, tool_use_event,
};
use crate::json::JsonView;
use crate::plain_laws::{absent_member_is_none, member_is_the_first_of_its_name};

verus! {

/// The names of members that are told apart.
proof fn lemma_names()
    ensures
        "isReplay"@ != "message"@,
        "isReplay"@ != "session_id"@,
        "isReplay"@ != "type"@,
        "isReplay"@ != "uuid"@,
        "message"@ != "session_id"@,
        "message"@ != "type"@,
        "message"@ != "uuid"@,
        "session_id"@ != "type"@,
        "session_id"@ != "uuid"@,
        "type"@ != "uuid"@,
        "content"@ != "role"@,
        "content"@ != "is_error"@,
        "content"@ != "tool_use_id"@,
        "content"@ != "type"@,
        "is_error"@ != "tool_use_id"@,
        "is_error"@ != "type"@,
        "is_error"@ != "result"@,
        "is_error"@ != "session_id"@,
        "is_error"@ != "uuid"@,
        "tool_use_id"@ != "type"@,
        "text"@ != "type"@,
        "id"@ != "input"@,
        "id"@ != "name"@,
        "id"@ != "type"@,
        "input"@ != "name"@,
        "input"@ != "type"@,
        "name"@ != "type"@,
        "event"@ != "session_id"@,
        "event"@ != "type"@,
        "event"@ != "uuid"@,
        "delta"@ != "type"@,
        "result"@ != "session_id"@,
        "result"@ != "type"@,
        "result"@ != "uuid"@,
{
    reveal_strlit("isReplay");
    reveal_strlit("message");
    reveal_strlit("session_id");
    reveal_strlit("type");
    reveal_strlit("uuid");
    reveal_strlit("content");
    reveal_strlit("role");
    reveal_strlit("is_error");
    reveal_strlit("tool_use_id");
    reveal_strlit("text");
    reveal_strlit("id");
    reveal_strlit("input");
    reveal_strlit("name");
    reveal_strlit("event");
    reveal_strlit("delta");
    reveal_strlit("result");
    assert("isReplay"@.len() == 8 && "message"@.len() == 7 && "session_id"@.len() == 10);
    assert("type"@.len() == 4 && "uuid"@.len() == 4 && "type"@[0] == 't' && "uuid"@[0] == 'u');
    assert("content"@.len() == 7 && "role"@.len() == 4 && "is_error"@.len() == 8);
    assert("tool_use_id"@.len() == 11 && "text"@.len() == 4 && "text"@[1] == 'e' && "type"@[1]
        == 'y');
    assert("id"@.len() == 2 && "input"@.len() == 5 && "name"@.len() == 4 && "name"@[0] == 'n');
    assert("event"@.len() == 5 && "delta"@.len() == 5 && "result"@.len() == 6);
}

/// The replay of a prompt is an event of the user under the identity of the turn, marked as a
/// replay, with the prompt as its one text.
pub proof fn replay_holds_the_prompt(turn: Seq<char>, session: Seq<char>, prompt: Seq<char>)
    ensures
        ({
            let event = replay_event(turn, session, prompt);
            &&& event.member("type"@) == Some(JsonView::Text("user"@))
            &&& event.member("uuid"@) == Some(JsonView::Text(turn))
            &&& event.member("session_id"@) == Some(JsonView::Text(session))
            &&& event.member("isReplay"@) == Some(JsonView::Bool(true))
            &&& event.member("message"@) matches Some(message) && message is Object
                && message.member("role"@) == Some(JsonView::Text("user"@)) && (message.member(
                "content"@,
            ) matches Some(JsonView::Array(content)) && content.len() == 1 && content[0] is Object
                && content[0].member("type"@) == Some(JsonView::Text("text"@))
                && content[0].member("text"@) == Some(JsonView::Text(prompt)))
        }),
{
    lemma_names();
    let members = replay_event(turn, session, prompt)->Object_0;
    member_is_the_first_of_its_name(members, "isReplay"@, 0);
    member_is_the_first_of_its_name(members, "message"@, 1);
    member_is_the_first_of_its_name(members, "session_id"@, 2);
    member_is_the_first_of_its_name(members, "type"@, 3);
    member_is_the_first_of_its_name(members, "uuid"@, 4);
    let message = members[1].1->Object_0;
    member_is_the_first_of_its_name(message, "content"@, 0);
    member_is_the_first_of_its_name(message, "role"@, 1);
    let block = (message[0].1->Array_0)[0]->Object_0;
    member_is_the_first_of_its_name(block, "text"@, 0);
    member_is_the_first_of_its_name(block, "type"@, 1);
}

/// The use of a tool is an event of the assistant in the session.
pub proof fn tool_use_is_an_assistant_event(session: Seq<char>)
    ensures
        ({
            let event = tool_use_event(session);
            &&& event.member("type"@) == Some(JsonView::Text("assistant"@))
            &&& event.member("session_id"@) == Some(JsonView::Text(session))
            &&& event.member("uuid"@) == Some(
                JsonView::Text("33333333-3333-4333-8333-333333333333"@),
            )
            &&& event.member("message"@) matches Some(message) && message.member("role"@) == Some(
                JsonView::Text("assistant"@),
            ) && (message.member("content"@) matches Some(JsonView::Array(content)) && content.len()
                == 1 && content[0].member("type"@) == Some(JsonView::Text("tool_use"@))
                && content[0].member("name"@) == Some(JsonView::Text("Read"@))
                && content[0].member("id"@) == Some(JsonView::Text("fixture-tool-use"@)))
        }),
{
    lemma_names();
    let members = tool_use_event(session)->Object_0;
    member_is_the_first_of_its_name(members, "message"@, 0);
    member_is_the_first_of_its_name(members, "session_id"@, 1);
    member_is_the_first_of_its_name(members, "type"@, 2);
    member_is_the_first_of_its_name(members, "uuid"@, 3);
    let message = members[0].1->Object_0;
    member_is_the_first_of_its_name(message, "content"@, 0);
    member_is_the_first_of_its_name(message, "role"@, 1);
    let block = (message[0].1->Array_0)[0]->Object_0;
    member_is_the_first_of_its_name(block, "id"@, 0);
    member_is_the_first_of_its_name(block, "name"@, 2);
    member_is_the_first_of_its_name(block, "type"@, 3);
}

/// The result of a tool is an event of the user that is no replay, with one well-formed block; the
/// malformed one has a flag that says it is no failure.
pub proof fn tool_result_holds_one_block(session: Seq<char>, malformed: bool)
    ensures
        ({
            let event = tool_result_event(session, malformed);
            &&& event.member("type"@) == Some(JsonView::Text("user"@))
            &&& event.member("session_id"@) == Some(JsonView::Text(session))
            &&& event.member("uuid"@) == Some(
                JsonView::Text("44444444-4444-4444-8444-444444444444"@),
            )
            &&& event.member("isReplay"@) is None
            &&& event.member("message"@) matches Some(message) && message is Object && (
            message.member("content"@) matches Some(JsonView::Array(content)) && content.len() == 1
                && content[0] is Object && content[0].member("type"@) == Some(
                JsonView::Text("tool_result"@),
            ) && content[0].member("content"@) == Some(JsonView::Text("fixture Read output"@))
                && content[0].member("tool_use_id"@) == Some(JsonView::Text("fixture-tool-use"@))
                && content[0].member("is_error"@) == (if malformed {
                Some(JsonView::Bool(false))
            } else {
                None
            }))
        }),
{
    lemma_names();
    let members = tool_result_event(session, malformed)->Object_0;
    member_is_the_first_of_its_name(members, "message"@, 0);
    member_is_the_first_of_its_name(members, "session_id"@, 1);
    member_is_the_first_of_its_name(members, "type"@, 2);
    member_is_the_first_of_its_name(members, "uuid"@, 3);
    absent_member_is_none(members, "isReplay"@, JsonView::Null);
    let message = members[0].1->Object_0;
    member_is_the_first_of_its_name(message, "content"@, 0);
    let block = (message[0].1->Array_0)[0]->Object_0;
    member_is_the_first_of_its_name(block, "content"@, 0);
    if malformed {
        member_is_the_first_of_its_name(block, "is_error"@, 1);
        member_is_the_first_of_its_name(block, "tool_use_id"@, 2);
        member_is_the_first_of_its_name(block, "type"@, 3);
    } else {
        absent_member_is_none(block, "is_error"@, JsonView::Null);
        member_is_the_first_of_its_name(block, "tool_use_id"@, 1);
        member_is_the_first_of_its_name(block, "type"@, 2);
    }
}

/// A piece of text is a partial message of the assistant that tells the prompt.
pub proof fn delta_tells_the_prompt(session: Seq<char>, prompt: Seq<char>)
    ensures
        ({
            let event = delta_event(session, prompt);
            &&& event.member("type"@) == Some(JsonView::Text("stream_event"@))
            &&& event.member("session_id"@) == Some(JsonView::Text(session))
            &&& event.member("event"@) matches Some(inner) && inner is Object && inner.member(
                "type"@,
            ) == Some(JsonView::Text("content_block_delta"@)) && (inner.member(
                "delta"@,
            ) matches Some(delta) && delta is Object && delta.member("type"@) == Some(
                JsonView::Text("text_delta"@),
            ) && delta.member("text"@) == Some(JsonView::Text("live: "@ + prompt)))
        }),
{
    lemma_names();
    let members = delta_event(session, prompt)->Object_0;
    member_is_the_first_of_its_name(members, "event"@, 0);
    member_is_the_first_of_its_name(members, "session_id"@, 1);
    member_is_the_first_of_its_name(members, "type"@, 2);
    let inner = members[0].1->Object_0;
    member_is_the_first_of_its_name(inner, "delta"@, 0);
    member_is_the_first_of_its_name(inner, "type"@, 1);
    let delta = inner[0].1->Object_0;
    member_is_the_first_of_its_name(delta, "text"@, 0);
    member_is_the_first_of_its_name(delta, "type"@, 1);
}

/// The result of a turn says whether it is an error, names its session, and holds its text.
pub proof fn turn_result_holds_its_text(is_error: bool, session: Seq<char>, result: Seq<char>)
    ensures
        ({
            let event = live_result_event(is_error, session, result);
            &&& event.member("type"@) == Some(JsonView::Text("result"@))
            &&& event.member("is_error"@) == Some(JsonView::Bool(is_error))
            &&& event.member("result"@) == Some(JsonView::Text(result))
            &&& event.member("session_id"@) == Some(JsonView::Text(session))
        }),
{
    lemma_names();
    let members = live_result_event(is_error, session, result)->Object_0;
    member_is_the_first_of_its_name(members, "is_error"@, 0);
    member_is_the_first_of_its_name(members, "result"@, 1);
    member_is_the_first_of_its_name(members, "session_id"@, 2);
    member_is_the_first_of_its_name(members, "type"@, 3);
}

/// An early text is an event of the assistant, and the event that nobody knows is of no known kind.
pub proof fn plain_events_name_their_kind(text: Seq<char>)
    ensures
        assistant_event(text).member("type"@) == Some(JsonView::Text("assistant"@)),
        assistant_event(text).member("text"@) == Some(JsonView::Text(text)),
        telemetry_event().member("type"@) == Some(JsonView::Text("telemetry"@)),
{
    lemma_names();
    let members = assistant_event(text)->Object_0;
    member_is_the_first_of_its_name(members, "text"@, 0);
    member_is_the_first_of_its_name(members, "type"@, 1);
    member_is_the_first_of_its_name(telemetry_event()->Object_0, "type"@, 0);
}

} // verus!
