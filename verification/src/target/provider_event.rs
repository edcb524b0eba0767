//! Reads one structured provider event into what the conversation depends on.

use vstd::prelude::*;
use vstd::string::*;

use crate::contract::target::{
    TargetSessionId, TargetTurnId, PROVIDER,
};
use crate::identifier::{parse_uuid, uuid_parsed};
use crate::json::{Json, JsonView};
use crate::text::{joined, joined3, optional, same_text, told};

verus! {

/// One provider event. A part that could not be read is kept as the message that says so, because
/// it matters only once the event gets that far.
#[derive(Debug, PartialEq, Eq)]
pub enum ProviderEvent {
    Init {
        session: Result<TargetSessionId, String>,
        model: Result<String, String>,
        version: Option<String>,
    },
    Lifecycle {
        session: Result<TargetSessionId, String>,
        turn: Result<TargetTurnId, String>,
        state: Result<String, String>,
    },
    ReplayedUser {
        session: Result<TargetSessionId, String>,
        turn: Result<TargetTurnId, String>,
        prompt: Result<String, String>,
    },
    ToolResult {
        session: Result<TargetSessionId, String>,
        turn: Result<TargetTurnId, String>,
        content: Result<(), String>,
    },
    UnclassifiedUser { session: Result<TargetSessionId, String> },
    TextDelta { session: Result<TargetSessionId, String>, text: Result<String, String> },
    Assistant { session: Result<TargetSessionId, String> },
    TurnResult {
        session: Result<TargetSessionId, String>,
        is_error: Option<bool>,
        result: Option<String>,
    },
    Ignored,
}

/// The mathematical content of [`ProviderEvent`].
#[verifier::ext_equal]
pub enum ProviderEventView {
    Init {
        session: Result<TargetSessionId, Seq<char>>,
        model: Result<Seq<char>, Seq<char>>,
        version: Option<Seq<char>>,
    },
    Lifecycle {
        session: Result<TargetSessionId, Seq<char>>,
        turn: Result<TargetTurnId, Seq<char>>,
        state: Result<Seq<char>, Seq<char>>,
    },
    ReplayedUser {
        session: Result<TargetSessionId, Seq<char>>,
        turn: Result<TargetTurnId, Seq<char>>,
        prompt: Result<Seq<char>, Seq<char>>,
    },
    ToolResult {
        session: Result<TargetSessionId, Seq<char>>,
        turn: Result<TargetTurnId, Seq<char>>,
        content: Result<(), Seq<char>>,
    },
    UnclassifiedUser { session: Result<TargetSessionId, Seq<char>> },
    TextDelta { session: Result<TargetSessionId, Seq<char>>, text: Result<Seq<char>, Seq<char>> },
    Assistant { session: Result<TargetSessionId, Seq<char>> },
    TurnResult {
        session: Result<TargetSessionId, Seq<char>>,
        is_error: Option<bool>,
        result: Option<Seq<char>>,
    },
    Ignored,
}

impl View for ProviderEvent {
    type V = ProviderEventView;

    open spec fn view(&self) -> ProviderEventView {
        match *self {
            ProviderEvent::Init { session, model, version } => ProviderEventView::Init {
                session: told(session),
                model: told(model),
                version: optional(version),
            },
            ProviderEvent::Lifecycle { session, turn, state } => ProviderEventView::Lifecycle {
                session: told(session),
                turn: told(turn),
                state: told(state),
            },
            ProviderEvent::ReplayedUser { session, turn, prompt } =>
                ProviderEventView::ReplayedUser {
                session: told(session),
                turn: told(turn),
                prompt: told(prompt),
            },
            ProviderEvent::ToolResult { session, turn, content } => ProviderEventView::ToolResult {
                session: told(session),
                turn: told(turn),
                content: told(content),
            },
            ProviderEvent::UnclassifiedUser { session } => ProviderEventView::UnclassifiedUser {
                session: told(session),
            },
            ProviderEvent::TextDelta { session, text } => ProviderEventView::TextDelta {
                session: told(session),
                text: told(text),
            },
            ProviderEvent::Assistant { session } => ProviderEventView::Assistant {
                session: told(session),
            },
            ProviderEvent::TurnResult { session, is_error, result } => ProviderEventView::TurnResult {
                session: told(session),
                is_error,
                result: optional(result),
            },
            ProviderEvent::Ignored => ProviderEventView::Ignored,
        }
    }
}

/// The text of a member that the event must have.
pub open spec fn required_text(event: JsonView, name: Seq<char>, field: Seq<char>) -> Result<
    Seq<char>,
    Seq<char>,
> {
    match event.text_of(field) {
        Some(text) => Ok(text),
        None => Err(PROVIDER@ + " "@ + name + " omitted "@ + field),
    }
}

/// The UUID in a member that the event must have.
pub open spec fn required_uuid(event: JsonView, name: Seq<char>, field: Seq<char>) -> Result<
    u128,
    Seq<char>,
> {
    match required_text(event, name, field) {
        Err(message) => Err(message),
        Ok(text) => match uuid_parsed(text) {
            Ok(value) => Ok(value),
            Err(message) => Err(
                PROVIDER@ + " "@ + name + " "@ + field + " was not a UUID: "@ + message,
            ),
        },
    }
}

/// The session that an event names.
pub open spec fn event_session(event: JsonView, name: Seq<char>) -> Result<
    TargetSessionId,
    Seq<char>,
> {
    match required_uuid(event, name, "session_id"@) {
        Ok(value) => Ok(TargetSessionId(value)),
        Err(message) => Err(message),
    }
}

/// The turn that an event names.
pub open spec fn event_turn(event: JsonView, name: Seq<char>, field: Seq<char>) -> Result<
    TargetTurnId,
    Seq<char>,
> {
    match required_uuid(event, name, field) {
        Ok(value) => Ok(TargetTurnId(value)),
        Err(message) => Err(message),
    }
}

/// The content blocks of the message of a user event.
pub open spec fn user_content(event: JsonView) -> Option<Seq<JsonView>> {
    match event.object_of("message"@) {
        Some(message) => message.items_of("content"@),
        None => None,
    }
}

/// The prompt of a replayed user message: the text of its one text block.
pub open spec fn replayed_prompt(event: JsonView) -> Result<Seq<char>, Seq<char>> {
    match user_content(event) {
        None => Err(PROVIDER@ + " replayed user message was malformed"@),
        Some(blocks) => if blocks.len() != 1 {
            Err(PROVIDER@ + " replayed user message must contain exactly one text block"@)
        } else if !(blocks[0] is Object) {
            Err(PROVIDER@ + " replayed user text block was malformed"@)
        } else if blocks[0].text_of("type"@) != Some("text"@) {
            Err(PROVIDER@ + " replayed user content block was not text"@)
        } else {
            match blocks[0].text_of("text"@) {
                Some(text) => Ok(text),
                None => Err(PROVIDER@ + " replayed user text was absent"@),
            }
        },
    }
}

/// Whether a user event holds exactly one well-formed tool result.
pub open spec fn tool_result_content(event: JsonView) -> Result<(), Seq<char>> {
    match user_content(event) {
        None => Err(PROVIDER@ + " tool result message was malformed"@),
        Some(blocks) => if blocks.len() != 1 {
            Err(PROVIDER@ + " tool result message must contain exactly one tool_result block"@)
        } else if !(blocks[0] is Object) {
            Err(PROVIDER@ + " tool result block was malformed"@)
        } else if blocks[0].text_of("type"@) != Some("tool_result"@) {
            Err(PROVIDER@ + " provider user event was not a tool_result"@)
        } else if blocks[0].text_of("content"@) is None {
            Err(PROVIDER@ + " tool result content was not a string"@)
        } else if blocks[0].member("is_error"@) is Some && blocks[0].member("is_error"@) != Some(
            JsonView::Bool(true),
        ) {
            Err(PROVIDER@ + " tool result is_error must be absent or true"@)
        } else if blocks[0].text_of("tool_use_id"@) is None {
            Err(PROVIDER@ + " tool result omitted tool_use_id"@)
        } else {
            Ok(())
        },
    }
}

/// The delta of a partial message that is a text delta.
pub open spec fn text_delta(event: JsonView) -> Option<JsonView> {
    match event.object_of("event"@) {
        Some(stream_event) => if stream_event.text_of("type"@) == Some("content_block_delta"@) {
            match stream_event.object_of("delta"@) {
                Some(delta) => if delta.text_of("type"@) == Some("text_delta"@) {
                    Some(delta)
                } else {
                    None
                },
                None => None,
            }
        } else {
            None
        },
        None => None,
    }
}

/// What one JSON event means to a live conversation.
pub open spec fn provider_event(event: JsonView) -> ProviderEventView {
    match event.text_of("type"@) {
        None => ProviderEventView::Ignored,
        Some(kind) => if kind == "system"@ && event.text_of("subtype"@) == Some("init"@) {
            ProviderEventView::Init {
                session: event_session(event, "init"@),
                model: required_text(event, "init"@, "model"@),
                version: event.text_of("claude_code_version"@),
            }
        } else if kind == "command_lifecycle"@ {
            ProviderEventView::Lifecycle {
                session: event_session(event, "command_lifecycle"@),
                turn: event_turn(event, "command_lifecycle"@, "command_uuid"@),
                state: required_text(event, "command_lifecycle"@, "state"@),
            }
        } else if kind == "user"@ {
            let session = event_session(event, "replayed user"@);
            if event.member("isReplay"@) == Some(JsonView::Bool(true)) {
                ProviderEventView::ReplayedUser {
                    session,
                    turn: event_turn(event, "replayed user"@, "uuid"@),
                    prompt: replayed_prompt(event),
                }
            } else if event.member("isReplay"@) is None {
                ProviderEventView::ToolResult {
                    session,
                    turn: event_turn(event, "tool result"@, "uuid"@),
                    content: tool_result_content(event),
                }
            } else {
                ProviderEventView::UnclassifiedUser { session }
            }
        } else if kind == "assistant"@ {
            ProviderEventView::Assistant { session: event_session(event, "assistant"@) }
        } else if kind == "stream_event"@ {
            match text_delta(event) {
                Some(delta) => ProviderEventView::TextDelta {
                    session: event_session(event, "partial assistant"@),
                    text: match delta.text_of("text"@) {
                        Some(text) => Ok(text),
                        None => Err(PROVIDER@ + " partial message omitted a text content-block delta"@),
                    },
                },
                None => ProviderEventView::Ignored,
            }
        } else if kind == "result"@ {
            ProviderEventView::TurnResult {
                session: event_session(event, "result"@),
                is_error: event.bool_of("is_error"@),
                result: event.text_of("result"@),
            }
        } else {
            ProviderEventView::Ignored
        },
    }
}

/// The text of a member that the event must have.
pub(crate) fn read_string(event: &Json, name: &str, field: &str) -> (read: Result<String, String>)
    ensures
        told(read) == required_text(event@, name@, field@),
{
    match event.text_of(field) {
        Some(text) => Ok(text),
        None => {
            let mut message = joined3(PROVIDER, " ", name);
            message.append(" omitted ");
            message.append(field);
            Err(message)
        },
    }
}

/// The UUID in a member that the event must have.
fn read_uuid(event: &Json, name: &str, field: &str) -> (read: Result<u128, String>)
    ensures
        told(read) == required_uuid(event@, name@, field@),
{
    match read_string(event, name, field) {
        Err(message) => Err(message),
        Ok(text) => match parse_uuid(text.as_str()) {
            Ok(value) => Ok(value),
            Err(error) => {
                let mut message = joined3(PROVIDER, " ", name);
                message.append(" ");
                message.append(field);
                message.append(" was not a UUID: ");
                message.append(error.as_str());
                Err(message)
            },
        },
    }
}

/// The session that an event names.
pub(crate) fn read_session(event: &Json, name: &str) -> (read: Result<TargetSessionId, String>)
    ensures
        told(read) == event_session(event@, name@),
{
    match read_uuid(event, name, "session_id") {
        Ok(value) => Ok(TargetSessionId(value)),
        Err(message) => Err(message),
    }
}

/// The turn that an event names.
fn read_turn(event: &Json, name: &str, field: &str) -> (read: Result<TargetTurnId, String>)
    ensures
        told(read) == event_turn(event@, name@, field@),
{
    match read_uuid(event, name, field) {
        Ok(value) => Ok(TargetTurnId(value)),
        Err(message) => Err(message),
    }
}

/// The one content block of the message of a user event, or which refusal applies.
fn single_block<'a>(
    event: &'a Json,
    malformed: &str,
    not_single: &str,
    not_object: &str,
) -> (block: Result<&'a Json, String>)
    ensures
        match user_content(event@) {
            None => told(block) == Err::<JsonView, _>(malformed@),
            Some(blocks) => if blocks.len() != 1 {
                told(block) == Err::<JsonView, _>(not_single@)
            } else if !(blocks[0] is Object) {
                told(block) == Err::<JsonView, _>(not_object@)
            } else {
                told(block) == Ok::<_, Seq<char>>(blocks[0])
            },
        },
{
    match event.object_of("message") {
        None => Err(malformed.to_owned()),
        Some(message) => match message.items_of("content") {
            None => Err(malformed.to_owned()),
            Some(blocks) => {
                if blocks.len() != 1 {
                    return Err(not_single.to_owned());
                }
                let block = &blocks[0];
                if !block.is_object() {
                    return Err(not_object.to_owned());
                }
                Ok(block)
            },
        },
    }
}

/// The prompt of a replayed user message.
fn read_user_prompt(event: &Json) -> (read: Result<String, String>)
    ensures
        told(read) == replayed_prompt(event@),
{
    let block = match single_block(
        event,
        joined(PROVIDER, " replayed user message was malformed").as_str(),
        joined(PROVIDER, " replayed user message must contain exactly one text block").as_str(),
        joined(PROVIDER, " replayed user text block was malformed").as_str(),
    ) {
        Ok(block) => block,
        Err(message) => {
            return Err(message);
        },
    };
    if !block.text_is("type", "text") {
        return Err(joined(PROVIDER, " replayed user content block was not text"));
    }
    match block.text_of("text") {
        Some(text) => Ok(text),
        None => Err(joined(PROVIDER, " replayed user text was absent")),
    }
}

/// Whether a user event holds exactly one well-formed tool result.
fn validate_tool_result(event: &Json) -> (valid: Result<(), String>)
    ensures
        told(valid) == tool_result_content(event@),
{
    let block = match single_block(
        event,
        joined(PROVIDER, " tool result message was malformed").as_str(),
        joined(PROVIDER, " tool result message must contain exactly one tool_result block").as_str(),
        joined(PROVIDER, " tool result block was malformed").as_str(),
    ) {
        Ok(block) => block,
        Err(message) => {
            return Err(message);
        },
    };
    if !block.text_is("type", "tool_result") {
        return Err(joined(PROVIDER, " provider user event was not a tool_result"));
    }
    if block.text_of("content").is_none() {
        return Err(joined(PROVIDER, " tool result content was not a string"));
    }
    match block.get("is_error") {
        None | Some(Json::Bool(true)) => {},
        Some(_) => {
            return Err(joined(PROVIDER, " tool result is_error must be absent or true"));
        },
    }
    if block.text_of("tool_use_id").is_none() {
        return Err(joined(PROVIDER, " tool result omitted tool_use_id"));
    }
    Ok(())
}

/// The delta of a partial message that is a text delta.
fn read_text_delta(event: &Json) -> (delta: Option<&Json>)
    ensures
        optional(delta) == text_delta(event@),
{
    match event.object_of("event") {
        Some(stream_event) => {
            if !stream_event.text_is("type", "content_block_delta") {
                return None;
            }
            match stream_event.object_of("delta") {
                Some(delta) => {
                    if delta.text_is("type", "text_delta") {
                        Some(delta)
                    } else {
                        None
                    }
                },
                None => None,
            }
        },
        None => None,
    }
}

/// Reads what one JSON event means to a live conversation.
pub fn read_event(event: &Json) -> (read: ProviderEvent)
    ensures
        read@ == provider_event(event@),
{
    let kind = match event.text_of("type") {
        Some(kind) => kind,
        None => {
            return ProviderEvent::Ignored;
        },
    };
    if same_text(kind.as_str(), "system") && event.text_is("subtype", "init") {
        return ProviderEvent::Init {
            session: read_session(event, "init"),
            model: read_string(event, "init", "model"),
            version: event.text_of("claude_code_version"),
        };
    }
    if same_text(kind.as_str(), "command_lifecycle") {
        return ProviderEvent::Lifecycle {
            session: read_session(event, "command_lifecycle"),
            turn: read_turn(event, "command_lifecycle", "command_uuid"),
            state: read_string(event, "command_lifecycle", "state"),
        };
    }
    if same_text(kind.as_str(), "user") {
        let session = read_session(event, "replayed user");
        return match event.get("isReplay") {
            Some(Json::Bool(true)) => ProviderEvent::ReplayedUser {
                session,
                turn: read_turn(event, "replayed user", "uuid"),
                prompt: read_user_prompt(event),
            },
            None => ProviderEvent::ToolResult {
                session,
                turn: read_turn(event, "tool result", "uuid"),
                content: validate_tool_result(event),
            },
            Some(_) => ProviderEvent::UnclassifiedUser { session },
        };
    }
    if same_text(kind.as_str(), "assistant") {
        return ProviderEvent::Assistant { session: read_session(event, "assistant") };
    }
    if same_text(kind.as_str(), "stream_event") {
        return match read_text_delta(event) {
            Some(delta) => ProviderEvent::TextDelta {
                session: read_session(event, "partial assistant"),
                text: match delta.text_of("text") {
                    Some(text) => Ok(text),
                    None => Err(
                        joined(PROVIDER, " partial message omitted a text content-block delta"),
                    ),
                },
            },
            None => ProviderEvent::Ignored,
        };
    }
    if same_text(kind.as_str(), "result") {
        return ProviderEvent::TurnResult {
            session: read_session(event, "result"),
            is_error: event.bool_of("is_error"),
            result: event.text_of("result"),
        };
    }
    ProviderEvent::Ignored
}

} // verus!
