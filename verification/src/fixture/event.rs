//! The events that the deterministic target writes. The members of every object are in the order of
//! their names.

use vstd::prelude::*;

use crate::json::{Json, JsonView};
use crate::text::joined;

verus! {

/// The event that names the session and the model.
pub open spec fn init_event(session: Seq<char>, model: Seq<char>) -> JsonView {
    JsonView::object().with_text("claude_code_version"@, "fixture-1"@).with_text(
        "model"@,
        model,
    ).with_text("session_id"@, session).with_text("subtype"@, "init"@).with_text("type"@, "system"@)
}

/// Makes the event that names the session and the model.
pub fn init(session: &str, model: &str) -> (event: Json)
    ensures
        event@ == init_event(session@, model@),
{
    Json::object().with_text("claude_code_version", "fixture-1").with_text("model", model).with_text(
        "session_id",
        session,
    ).with_text("subtype", "init").with_text("type", "system")
}

/// An event that no reader knows.
pub open spec fn telemetry_event() -> JsonView {
    JsonView::object().with_text("type"@, "telemetry"@).with_text(
        "unknown_field"@,
        "retained as nonterminal"@,
    )
}

/// Makes an event that no reader knows.
pub fn telemetry() -> (event: Json)
    ensures
        event@ == telemetry_event(),
{
    Json::object().with_text("type", "telemetry").with_text(
        "unknown_field",
        "retained as nonterminal",
    )
}

/// A bare assistant text.
pub open spec fn assistant_event(text: Seq<char>) -> JsonView {
    JsonView::object().with_text("text"@, text).with_text("type"@, "assistant"@)
}

/// Makes a bare assistant text.
pub fn assistant(text: &str) -> (event: Json)
    ensures
        event@ == assistant_event(text@),
{
    Json::object().with_text("text", text).with_text("type", "assistant")
}

/// The event of a retry.
pub open spec fn retry_event(attempt: u64, max_retries: u64, retry_delay_ms: u64) -> JsonView {
    JsonView::object().with("attempt"@, JsonView::Number(Some(attempt))).with(
        "max_retries"@,
        JsonView::Number(Some(max_retries)),
    ).with("retry_delay_ms"@, JsonView::Number(Some(retry_delay_ms))).with_text(
        "subtype"@,
        "api_retry"@,
    ).with_text("type"@, "system"@)
}

/// Makes the event of a retry.
pub fn retry(attempt: u64, max_retries: u64, retry_delay_ms: u64) -> (event: Json)
    ensures
        event@ == retry_event(attempt, max_retries, retry_delay_ms),
{
    Json::object().with("attempt", Json::Number(Some(attempt))).with(
        "max_retries",
        Json::Number(Some(max_retries)),
    ).with("retry_delay_ms", Json::Number(Some(retry_delay_ms))).with_text(
        "subtype",
        "api_retry",
    ).with_text("type", "system")
}

/// The event of a refused authentication.
pub open spec fn authentication_event() -> JsonView {
    JsonView::object().with_text("error"@, "authentication_failed"@).with(
        "is_api_error_message"@,
        JsonView::Bool(true),
    ).with_text("type"@, "assistant"@)
}

/// Makes the event of a refused authentication.
pub fn authentication() -> (event: Json)
    ensures
        event@ == authentication_event(),
{
    Json::object().with_text("error", "authentication_failed").with(
        "is_api_error_message",
        Json::Bool(true),
    ).with_text("type", "assistant")
}

/// The result of a review, which may have no text.
pub open spec fn result_event(is_error: bool, session: Seq<char>, result: Option<Seq<char>>) -> JsonView {
    let head = JsonView::object().with("is_error"@, JsonView::Bool(is_error));
    let told = match result {
        Some(result) => head.with_text("result"@, result),
        None => head,
    };
    told.with_text("session_id"@, session).with_text("type"@, "result"@)
}

/// Makes the result of a review, which may have no text.
pub fn result(is_error: bool, session: &str, told: Option<&str>) -> (event: Json)
    ensures
        event@ == result_event(is_error, session@, crate::text::optional(told)),
{
    let head = Json::object().with("is_error", Json::Bool(is_error));
    let body = match told {
        Some(text) => head.with_text("result", text),
        None => head,
    };
    body.with_text("session_id", session).with_text("type", "result")
}

/// A step in the life of a turn.
pub open spec fn lifecycle_event(turn: Seq<char>, session: Seq<char>, state: Seq<char>) -> JsonView {
    JsonView::object().with_text("command_uuid"@, turn).with_text("session_id"@, session).with_text(
        "state"@,
        state,
    ).with_text("type"@, "command_lifecycle"@)
}

/// Makes a step in the life of a turn.
pub fn lifecycle(turn: &str, session: &str, state: &str) -> (event: Json)
    ensures
        event@ == lifecycle_event(turn@, session@, state@),
{
    Json::object().with_text("command_uuid", turn).with_text("session_id", session).with_text(
        "state",
        state,
    ).with_text("type", "command_lifecycle")
}

/// A message of one block.
pub open spec fn message_of(block: JsonView, role: Seq<char>) -> JsonView {
    JsonView::object().with("content"@, JsonView::one(block)).with_text("role"@, role)
}

/// Makes a message of one block.
fn message(block: Json, role: &str) -> (message: Json)
    ensures
        message@ == message_of(block@, role@),
{
    Json::object().with("content", Json::one(block)).with_text("role", role)
}

/// The replay of the prompt of a turn.
pub open spec fn replay_event(turn: Seq<char>, session: Seq<char>, prompt: Seq<char>) -> JsonView {
    JsonView::object().with("isReplay"@, JsonView::Bool(true)).with(
        "message"@,
        message_of(
            JsonView::object().with_text("text"@, prompt).with_text("type"@, "text"@),
            "user"@,
        ),
    ).with_text("session_id"@, session).with_text("type"@, "user"@).with_text("uuid"@, turn)
}

/// Makes the replay of the prompt of a turn.
pub fn replay(turn: &str, session: &str, prompt: &str) -> (event: Json)
    ensures
        event@ == replay_event(turn@, session@, prompt@),
{
    let block = Json::object().with_text("text", prompt).with_text("type", "text");
    Json::object().with("isReplay", Json::Bool(true)).with(
        "message",
        message(block, "user"),
    ).with_text("session_id", session).with_text("type", "user").with_text("uuid", turn)
}

/// The use of a tool.
pub open spec fn tool_use_event(session: Seq<char>) -> JsonView {
    JsonView::object().with(
        "message"@,
        message_of(
            JsonView::object().with_text("id"@, "fixture-tool-use"@).with(
                "input"@,
                JsonView::object(),
            ).with_text("name"@, "Read"@).with_text("type"@, "tool_use"@),
            "assistant"@,
        ),
    ).with_text("session_id"@, session).with_text("type"@, "assistant"@).with_text(
        "uuid"@,
        "33333333-3333-4333-8333-333333333333"@,
    )
}

/// Makes the use of a tool.
pub fn tool_use(session: &str) -> (event: Json)
    ensures
        event@ == tool_use_event(session@),
{
    let block = Json::object().with_text("id", "fixture-tool-use").with(
        "input",
        Json::object(),
    ).with_text("name", "Read").with_text("type", "tool_use");
    Json::object().with("message", message(block, "assistant")).with_text(
        "session_id",
        session,
    ).with_text("type", "assistant").with_text("uuid", "33333333-3333-4333-8333-333333333333")
}

/// The result of a tool. A malformed one says that it is no error.
pub open spec fn tool_result_event(session: Seq<char>, malformed: bool) -> JsonView {
    let head = JsonView::object().with_text("content"@, "fixture Read output"@);
    let told = if malformed {
        head.with("is_error"@, JsonView::Bool(false))
    } else {
        head
    };
    JsonView::object().with(
        "message"@,
        message_of(
            told.with_text("tool_use_id"@, "fixture-tool-use"@).with_text("type"@, "tool_result"@),
            "user"@,
        ),
    ).with_text("session_id"@, session).with_text("type"@, "user"@).with_text(
        "uuid"@,
        "44444444-4444-4444-8444-444444444444"@,
    )
}

/// Makes the result of a tool.
pub fn tool_result(session: &str, malformed: bool) -> (event: Json)
    ensures
        event@ == tool_result_event(session@, malformed),
{
    let head = Json::object().with_text("content", "fixture Read output");
    let told = if malformed {
        head.with("is_error", Json::Bool(false))
    } else {
        head
    };
    let block = told.with_text("tool_use_id", "fixture-tool-use").with_text("type", "tool_result");
    Json::object().with("message", message(block, "user")).with_text(
        "session_id",
        session,
    ).with_text("type", "user").with_text("uuid", "44444444-4444-4444-8444-444444444444")
}

/// A piece of assistant text, which tells the prompt.
pub open spec fn delta_event(session: Seq<char>, prompt: Seq<char>) -> JsonView {
    JsonView::object().with(
        "event"@,
        JsonView::object().with(
            "delta"@,
            JsonView::object().with_text("text"@, "live: "@ + prompt).with_text(
                "type"@,
                "text_delta"@,
            ),
        ).with_text("type"@, "content_block_delta"@),
    ).with_text("session_id"@, session).with_text("type"@, "stream_event"@).with_text(
        "uuid"@,
        "11111111-1111-4111-8111-111111111111"@,
    )
}

/// Makes a piece of assistant text, which tells the prompt.
pub fn delta(session: &str, prompt: &str) -> (event: Json)
    ensures
        event@ == delta_event(session@, prompt@),
{
    let text = joined("live: ", prompt);
    let delta = Json::object().with_text("text", text.as_str()).with_text("type", "text_delta");
    let inner = Json::object().with("delta", delta).with_text("type", "content_block_delta");
    Json::object().with("event", inner).with_text("session_id", session).with_text(
        "type",
        "stream_event",
    ).with_text("uuid", "11111111-1111-4111-8111-111111111111")
}

/// The result of a turn.
pub open spec fn live_result_event(is_error: bool, session: Seq<char>, result: Seq<char>) -> JsonView {
    JsonView::object().with("is_error"@, JsonView::Bool(is_error)).with_text(
        "result"@,
        result,
    ).with_text("session_id"@, session).with_text("type"@, "result"@).with_text(
        "uuid"@,
        "22222222-2222-4222-8222-222222222222"@,
    )
}

/// Makes the result of a turn.
pub fn live_result(is_error: bool, session: &str, result: &str) -> (event: Json)
    ensures
        event@ == live_result_event(is_error, session@, result@),
{
    Json::object().with("is_error", Json::Bool(is_error)).with_text("result", result).with_text(
        "session_id",
        session,
    ).with_text("type", "result").with_text("uuid", "22222222-2222-4222-8222-222222222222")
}

} // verus!
