//! What the scripted target does with each prompt that asks for something special.

use vstd::prelude::*;

use crate::fixture::event::{
    assistant_event, authentication_event, delta_event, init_event, lifecycle_event,
    live_result_event, replay_event, result_event, retry_event, telemetry_event,
    tool_result_event, tool_use_event,
};
use crate::fixture::invocation::{InvocationView, LiveInvocationView, LiveTurnView};
use crate::fixture::live::turn_script;
use crate::fixture::prompt::{
    PromptInputView, NONZERO_WITHOUT_INPUT_MARKER, PENDING_INPUT_CANCELLATION_MARKER,
};
use crate::fixture::review::review_script;
use crate::fixture::script::{ActionView, Exit};
use crate::text::{occurs, stands_at};

verus! {

/// The prompts that ask for something special in a review are told apart.
proof fn lemma_review_prompts()
    ensures
        "__fixture_long_runtime__"@ != "__fixture_session_mismatch__"@,
        "__fixture_long_runtime__"@ != "__fixture_model_mismatch__"@,
        "__fixture_long_runtime__"@ != "__fixture_unknown_event__"@,
        "__fixture_long_runtime__"@ != "__fixture_large_result__"@,
        "__fixture_long_runtime__"@ != "__fixture_terminal_failure__"@,
        "__fixture_long_runtime__"@ != "__fixture_terminal_failure_without_text__"@,
        "__fixture_long_runtime__"@ != "__fixture_exit_without_result__"@,
        "__fixture_long_runtime__"@ != "__fixture_split_utf8_result__"@,
        "__fixture_long_runtime__"@ != "__fixture_result_then_fragment__"@,
        "__fixture_long_runtime__"@ != "__fixture_diagnostics__"@,
        "__fixture_long_runtime__"@ != "__fixture_hold_for_cancel__"@,
        "__fixture_session_mismatch__"@ != "__fixture_model_mismatch__"@,
        "__fixture_session_mismatch__"@ != "__fixture_unknown_event__"@,
        "__fixture_session_mismatch__"@ != "__fixture_large_result__"@,
        "__fixture_session_mismatch__"@ != "__fixture_terminal_failure__"@,
        "__fixture_session_mismatch__"@ != "__fixture_terminal_failure_without_text__"@,
        "__fixture_session_mismatch__"@ != "__fixture_exit_without_result__"@,
        "__fixture_session_mismatch__"@ != "__fixture_split_utf8_result__"@,
        "__fixture_session_mismatch__"@ != "__fixture_result_then_fragment__"@,
        "__fixture_session_mismatch__"@ != "__fixture_diagnostics__"@,
        "__fixture_session_mismatch__"@ != "__fixture_hold_for_cancel__"@,
        "__fixture_model_mismatch__"@ != "__fixture_unknown_event__"@,
        "__fixture_model_mismatch__"@ != "__fixture_large_result__"@,
        "__fixture_model_mismatch__"@ != "__fixture_terminal_failure__"@,
        "__fixture_model_mismatch__"@ != "__fixture_terminal_failure_without_text__"@,
        "__fixture_model_mismatch__"@ != "__fixture_exit_without_result__"@,
        "__fixture_model_mismatch__"@ != "__fixture_split_utf8_result__"@,
        "__fixture_model_mismatch__"@ != "__fixture_result_then_fragment__"@,
        "__fixture_model_mismatch__"@ != "__fixture_diagnostics__"@,
        "__fixture_model_mismatch__"@ != "__fixture_hold_for_cancel__"@,
        "__fixture_unknown_event__"@ != "__fixture_large_result__"@,
        "__fixture_unknown_event__"@ != "__fixture_terminal_failure__"@,
        "__fixture_unknown_event__"@ != "__fixture_terminal_failure_without_text__"@,
        "__fixture_unknown_event__"@ != "__fixture_exit_without_result__"@,
        "__fixture_unknown_event__"@ != "__fixture_split_utf8_result__"@,
        "__fixture_unknown_event__"@ != "__fixture_result_then_fragment__"@,
        "__fixture_unknown_event__"@ != "__fixture_diagnostics__"@,
        "__fixture_unknown_event__"@ != "__fixture_hold_for_cancel__"@,
        "__fixture_large_result__"@ != "__fixture_terminal_failure__"@,
        "__fixture_large_result__"@ != "__fixture_terminal_failure_without_text__"@,
        "__fixture_large_result__"@ != "__fixture_exit_without_result__"@,
        "__fixture_large_result__"@ != "__fixture_split_utf8_result__"@,
        "__fixture_large_result__"@ != "__fixture_result_then_fragment__"@,
        "__fixture_large_result__"@ != "__fixture_diagnostics__"@,
        "__fixture_large_result__"@ != "__fixture_hold_for_cancel__"@,
        "__fixture_terminal_failure__"@ != "__fixture_terminal_failure_without_text__"@,
        "__fixture_terminal_failure__"@ != "__fixture_exit_without_result__"@,
        "__fixture_terminal_failure__"@ != "__fixture_split_utf8_result__"@,
        "__fixture_terminal_failure__"@ != "__fixture_result_then_fragment__"@,
        "__fixture_terminal_failure__"@ != "__fixture_diagnostics__"@,
        "__fixture_terminal_failure__"@ != "__fixture_hold_for_cancel__"@,
        "__fixture_terminal_failure_without_text__"@ != "__fixture_exit_without_result__"@,
        "__fixture_terminal_failure_without_text__"@ != "__fixture_split_utf8_result__"@,
        "__fixture_terminal_failure_without_text__"@ != "__fixture_result_then_fragment__"@,
        "__fixture_terminal_failure_without_text__"@ != "__fixture_diagnostics__"@,
        "__fixture_terminal_failure_without_text__"@ != "__fixture_hold_for_cancel__"@,
        "__fixture_exit_without_result__"@ != "__fixture_split_utf8_result__"@,
        "__fixture_exit_without_result__"@ != "__fixture_result_then_fragment__"@,
        "__fixture_exit_without_result__"@ != "__fixture_diagnostics__"@,
        "__fixture_exit_without_result__"@ != "__fixture_hold_for_cancel__"@,
        "__fixture_split_utf8_result__"@ != "__fixture_result_then_fragment__"@,
        "__fixture_split_utf8_result__"@ != "__fixture_diagnostics__"@,
        "__fixture_split_utf8_result__"@ != "__fixture_hold_for_cancel__"@,
        "__fixture_result_then_fragment__"@ != "__fixture_diagnostics__"@,
        "__fixture_result_then_fragment__"@ != "__fixture_hold_for_cancel__"@,
        "__fixture_diagnostics__"@ != "__fixture_hold_for_cancel__"@,
{
    reveal_strlit("__fixture_long_runtime__");
    reveal_strlit("__fixture_session_mismatch__");
    reveal_strlit("__fixture_model_mismatch__");
    reveal_strlit("__fixture_unknown_event__");
    reveal_strlit("__fixture_large_result__");
    reveal_strlit("__fixture_terminal_failure__");
    reveal_strlit("__fixture_terminal_failure_without_text__");
    reveal_strlit("__fixture_exit_without_result__");
    reveal_strlit("__fixture_split_utf8_result__");
    reveal_strlit("__fixture_result_then_fragment__");
    reveal_strlit("__fixture_diagnostics__");
    reveal_strlit("__fixture_hold_for_cancel__");
    assert("__fixture_long_runtime__"@.len() == 24);
    assert("__fixture_session_mismatch__"@.len() == 28);
    assert("__fixture_model_mismatch__"@.len() == 26);
    assert("__fixture_unknown_event__"@.len() == 25);
    assert("__fixture_large_result__"@.len() == 24);
    assert("__fixture_terminal_failure__"@.len() == 28);
    assert("__fixture_terminal_failure_without_text__"@.len() == 41);
    assert("__fixture_exit_without_result__"@.len() == 31);
    assert("__fixture_split_utf8_result__"@.len() == 29);
    assert("__fixture_result_then_fragment__"@.len() == 32);
    assert("__fixture_diagnostics__"@.len() == 23);
    assert("__fixture_hold_for_cancel__"@.len() == 27);
    assert("__fixture_long_runtime__"@[11] == 'o' && "__fixture_large_result__"@[11] == 'a');
    assert("__fixture_session_mismatch__"@[10] == 's' && "__fixture_terminal_failure__"@[10] == 't');
}

/// The prompts that ask for something special in a turn are told apart.
proof fn lemma_turn_prompts()
    ensures
        "__fixture_live_session_mismatch__"@ != "__fixture_live_model_mismatch__"@,
        "__fixture_live_session_mismatch__"@ != "__fixture_live_content_mismatch__"@,
        "__fixture_live_session_mismatch__"@ != "__fixture_live_uuid_mismatch__"@,
        "__fixture_live_session_mismatch__"@ != "__fixture_live_hold__"@,
        "__fixture_live_session_mismatch__"@ != "__fixture_live_invalid_json__"@,
        "__fixture_live_session_mismatch__"@ != "__fixture_live_unexpected_exit__"@,
        "__fixture_live_session_mismatch__"@ != "__fixture_live_lifecycle_order_mismatch__"@,
        "__fixture_live_session_mismatch__"@ != "__fixture_live_result_without_started__"@,
        "__fixture_live_session_mismatch__"@ != "__fixture_live_malformed_tool_result__"@,
        "__fixture_live_session_mismatch__"@ != "__fixture_live_unknown_lifecycle__"@,
        "__fixture_live_session_mismatch__"@ != "__fixture_live_provider_failure__"@,
        "__fixture_live_session_mismatch__"@ != "__fixture_live_hold_after_start__"@,
        "__fixture_live_model_mismatch__"@ != "__fixture_live_content_mismatch__"@,
        "__fixture_live_model_mismatch__"@ != "__fixture_live_uuid_mismatch__"@,
        "__fixture_live_model_mismatch__"@ != "__fixture_live_hold__"@,
        "__fixture_live_model_mismatch__"@ != "__fixture_live_invalid_json__"@,
        "__fixture_live_model_mismatch__"@ != "__fixture_live_unexpected_exit__"@,
        "__fixture_live_model_mismatch__"@ != "__fixture_live_lifecycle_order_mismatch__"@,
        "__fixture_live_model_mismatch__"@ != "__fixture_live_result_without_started__"@,
        "__fixture_live_model_mismatch__"@ != "__fixture_live_malformed_tool_result__"@,
        "__fixture_live_model_mismatch__"@ != "__fixture_live_unknown_lifecycle__"@,
        "__fixture_live_model_mismatch__"@ != "__fixture_live_provider_failure__"@,
        "__fixture_live_model_mismatch__"@ != "__fixture_live_hold_after_start__"@,
        "__fixture_live_content_mismatch__"@ != "__fixture_live_uuid_mismatch__"@,
        "__fixture_live_content_mismatch__"@ != "__fixture_live_hold__"@,
        "__fixture_live_content_mismatch__"@ != "__fixture_live_invalid_json__"@,
        "__fixture_live_content_mismatch__"@ != "__fixture_live_unexpected_exit__"@,
        "__fixture_live_content_mismatch__"@ != "__fixture_live_lifecycle_order_mismatch__"@,
        "__fixture_live_content_mismatch__"@ != "__fixture_live_result_without_started__"@,
        "__fixture_live_content_mismatch__"@ != "__fixture_live_malformed_tool_result__"@,
        "__fixture_live_content_mismatch__"@ != "__fixture_live_unknown_lifecycle__"@,
        "__fixture_live_content_mismatch__"@ != "__fixture_live_provider_failure__"@,
        "__fixture_live_content_mismatch__"@ != "__fixture_live_hold_after_start__"@,
        "__fixture_live_uuid_mismatch__"@ != "__fixture_live_hold__"@,
        "__fixture_live_uuid_mismatch__"@ != "__fixture_live_invalid_json__"@,
        "__fixture_live_uuid_mismatch__"@ != "__fixture_live_unexpected_exit__"@,
        "__fixture_live_uuid_mismatch__"@ != "__fixture_live_lifecycle_order_mismatch__"@,
        "__fixture_live_uuid_mismatch__"@ != "__fixture_live_result_without_started__"@,
        "__fixture_live_uuid_mismatch__"@ != "__fixture_live_malformed_tool_result__"@,
        "__fixture_live_uuid_mismatch__"@ != "__fixture_live_unknown_lifecycle__"@,
        "__fixture_live_uuid_mismatch__"@ != "__fixture_live_provider_failure__"@,
        "__fixture_live_uuid_mismatch__"@ != "__fixture_live_hold_after_start__"@,
        "__fixture_live_hold__"@ != "__fixture_live_invalid_json__"@,
        "__fixture_live_hold__"@ != "__fixture_live_unexpected_exit__"@,
        "__fixture_live_hold__"@ != "__fixture_live_lifecycle_order_mismatch__"@,
        "__fixture_live_hold__"@ != "__fixture_live_result_without_started__"@,
        "__fixture_live_hold__"@ != "__fixture_live_malformed_tool_result__"@,
        "__fixture_live_hold__"@ != "__fixture_live_unknown_lifecycle__"@,
        "__fixture_live_hold__"@ != "__fixture_live_provider_failure__"@,
        "__fixture_live_hold__"@ != "__fixture_live_hold_after_start__"@,
        "__fixture_live_invalid_json__"@ != "__fixture_live_unexpected_exit__"@,
        "__fixture_live_invalid_json__"@ != "__fixture_live_lifecycle_order_mismatch__"@,
        "__fixture_live_invalid_json__"@ != "__fixture_live_result_without_started__"@,
        "__fixture_live_invalid_json__"@ != "__fixture_live_malformed_tool_result__"@,
        "__fixture_live_invalid_json__"@ != "__fixture_live_unknown_lifecycle__"@,
        "__fixture_live_invalid_json__"@ != "__fixture_live_provider_failure__"@,
        "__fixture_live_invalid_json__"@ != "__fixture_live_hold_after_start__"@,
        "__fixture_live_unexpected_exit__"@ != "__fixture_live_lifecycle_order_mismatch__"@,
        "__fixture_live_unexpected_exit__"@ != "__fixture_live_result_without_started__"@,
        "__fixture_live_unexpected_exit__"@ != "__fixture_live_malformed_tool_result__"@,
        "__fixture_live_unexpected_exit__"@ != "__fixture_live_unknown_lifecycle__"@,
        "__fixture_live_unexpected_exit__"@ != "__fixture_live_provider_failure__"@,
        "__fixture_live_unexpected_exit__"@ != "__fixture_live_hold_after_start__"@,
        "__fixture_live_lifecycle_order_mismatch__"@ != "__fixture_live_result_without_started__"@,
        "__fixture_live_lifecycle_order_mismatch__"@ != "__fixture_live_malformed_tool_result__"@,
        "__fixture_live_lifecycle_order_mismatch__"@ != "__fixture_live_unknown_lifecycle__"@,
        "__fixture_live_lifecycle_order_mismatch__"@ != "__fixture_live_provider_failure__"@,
        "__fixture_live_lifecycle_order_mismatch__"@ != "__fixture_live_hold_after_start__"@,
        "__fixture_live_result_without_started__"@ != "__fixture_live_malformed_tool_result__"@,
        "__fixture_live_result_without_started__"@ != "__fixture_live_unknown_lifecycle__"@,
        "__fixture_live_result_without_started__"@ != "__fixture_live_provider_failure__"@,
        "__fixture_live_result_without_started__"@ != "__fixture_live_hold_after_start__"@,
        "__fixture_live_malformed_tool_result__"@ != "__fixture_live_unknown_lifecycle__"@,
        "__fixture_live_malformed_tool_result__"@ != "__fixture_live_provider_failure__"@,
        "__fixture_live_malformed_tool_result__"@ != "__fixture_live_hold_after_start__"@,
        "__fixture_live_unknown_lifecycle__"@ != "__fixture_live_provider_failure__"@,
        "__fixture_live_unknown_lifecycle__"@ != "__fixture_live_hold_after_start__"@,
        "__fixture_live_provider_failure__"@ != "__fixture_live_hold_after_start__"@,
{
    reveal_strlit("__fixture_live_session_mismatch__");
    reveal_strlit("__fixture_live_model_mismatch__");
    reveal_strlit("__fixture_live_content_mismatch__");
    reveal_strlit("__fixture_live_uuid_mismatch__");
    reveal_strlit("__fixture_live_hold__");
    reveal_strlit("__fixture_live_invalid_json__");
    reveal_strlit("__fixture_live_unexpected_exit__");
    reveal_strlit("__fixture_live_lifecycle_order_mismatch__");
    reveal_strlit("__fixture_live_result_without_started__");
    reveal_strlit("__fixture_live_malformed_tool_result__");
    reveal_strlit("__fixture_live_unknown_lifecycle__");
    reveal_strlit("__fixture_live_provider_failure__");
    reveal_strlit("__fixture_live_hold_after_start__");
    assert("__fixture_live_session_mismatch__"@.len() == 33);
    assert("__fixture_live_model_mismatch__"@.len() == 31);
    assert("__fixture_live_content_mismatch__"@.len() == 33);
    assert("__fixture_live_uuid_mismatch__"@.len() == 30);
    assert("__fixture_live_hold__"@.len() == 21);
    assert("__fixture_live_invalid_json__"@.len() == 29);
    assert("__fixture_live_unexpected_exit__"@.len() == 32);
    assert("__fixture_live_lifecycle_order_mismatch__"@.len() == 41);
    assert("__fixture_live_result_without_started__"@.len() == 39);
    assert("__fixture_live_malformed_tool_result__"@.len() == 38);
    assert("__fixture_live_unknown_lifecycle__"@.len() == 34);
    assert("__fixture_live_provider_failure__"@.len() == 33);
    assert("__fixture_live_hold_after_start__"@.len() == 33);
    assert("__fixture_live_session_mismatch__"@[15] == 's' && "__fixture_live_content_mismatch__"@[15] == 'c');
    assert("__fixture_live_session_mismatch__"@[15] == 's' && "__fixture_live_provider_failure__"@[15] == 'p');
    assert("__fixture_live_session_mismatch__"@[15] == 's' && "__fixture_live_hold_after_start__"@[15] == 'h');
    assert("__fixture_live_content_mismatch__"@[15] == 'c' && "__fixture_live_provider_failure__"@[15] == 'p');
    assert("__fixture_live_content_mismatch__"@[15] == 'c' && "__fixture_live_hold_after_start__"@[15] == 'h');
    assert("__fixture_live_provider_failure__"@[15] == 'p' && "__fixture_live_hold_after_start__"@[15] == 'h');
}

/// No prompt that asks for something special in a review holds another mark.
proof fn lemma_unmarked()
    ensures
        !occurs("__fixture_long_runtime__"@, "__fixture_early_large_output__"@),
        !PENDING_INPUT_CANCELLATION_MARKER@.is_prefix_of("__fixture_long_runtime__"@),
        !NONZERO_WITHOUT_INPUT_MARKER@.is_prefix_of("__fixture_long_runtime__"@),
        !occurs("__fixture_session_mismatch__"@, "__fixture_early_large_output__"@),
        !PENDING_INPUT_CANCELLATION_MARKER@.is_prefix_of("__fixture_session_mismatch__"@),
        !NONZERO_WITHOUT_INPUT_MARKER@.is_prefix_of("__fixture_session_mismatch__"@),
        !occurs("__fixture_model_mismatch__"@, "__fixture_early_large_output__"@),
        !PENDING_INPUT_CANCELLATION_MARKER@.is_prefix_of("__fixture_model_mismatch__"@),
        !NONZERO_WITHOUT_INPUT_MARKER@.is_prefix_of("__fixture_model_mismatch__"@),
        !occurs("__fixture_unknown_event__"@, "__fixture_early_large_output__"@),
        !PENDING_INPUT_CANCELLATION_MARKER@.is_prefix_of("__fixture_unknown_event__"@),
        !NONZERO_WITHOUT_INPUT_MARKER@.is_prefix_of("__fixture_unknown_event__"@),
        !occurs("__fixture_large_result__"@, "__fixture_early_large_output__"@),
        !PENDING_INPUT_CANCELLATION_MARKER@.is_prefix_of("__fixture_large_result__"@),
        !NONZERO_WITHOUT_INPUT_MARKER@.is_prefix_of("__fixture_large_result__"@),
        !occurs("__fixture_terminal_failure__"@, "__fixture_early_large_output__"@),
        !PENDING_INPUT_CANCELLATION_MARKER@.is_prefix_of("__fixture_terminal_failure__"@),
        !NONZERO_WITHOUT_INPUT_MARKER@.is_prefix_of("__fixture_terminal_failure__"@),
        !occurs("__fixture_terminal_failure_without_text__"@, "__fixture_early_large_output__"@),
        !PENDING_INPUT_CANCELLATION_MARKER@.is_prefix_of("__fixture_terminal_failure_without_text__"@),
        !NONZERO_WITHOUT_INPUT_MARKER@.is_prefix_of("__fixture_terminal_failure_without_text__"@),
        !occurs("__fixture_exit_without_result__"@, "__fixture_early_large_output__"@),
        !PENDING_INPUT_CANCELLATION_MARKER@.is_prefix_of("__fixture_exit_without_result__"@),
        !NONZERO_WITHOUT_INPUT_MARKER@.is_prefix_of("__fixture_exit_without_result__"@),
        !occurs("__fixture_split_utf8_result__"@, "__fixture_early_large_output__"@),
        !PENDING_INPUT_CANCELLATION_MARKER@.is_prefix_of("__fixture_split_utf8_result__"@),
        !NONZERO_WITHOUT_INPUT_MARKER@.is_prefix_of("__fixture_split_utf8_result__"@),
        !occurs("__fixture_result_then_fragment__"@, "__fixture_early_large_output__"@),
        !PENDING_INPUT_CANCELLATION_MARKER@.is_prefix_of("__fixture_result_then_fragment__"@),
        !NONZERO_WITHOUT_INPUT_MARKER@.is_prefix_of("__fixture_result_then_fragment__"@),
        !occurs("__fixture_diagnostics__"@, "__fixture_early_large_output__"@),
        !PENDING_INPUT_CANCELLATION_MARKER@.is_prefix_of("__fixture_diagnostics__"@),
        !NONZERO_WITHOUT_INPUT_MARKER@.is_prefix_of("__fixture_diagnostics__"@),
        !occurs("__fixture_hold_for_cancel__"@, "__fixture_early_large_output__"@),
        !PENDING_INPUT_CANCELLATION_MARKER@.is_prefix_of("__fixture_hold_for_cancel__"@),
        !NONZERO_WITHOUT_INPUT_MARKER@.is_prefix_of("__fixture_hold_for_cancel__"@),
{
    reveal_strlit("__fixture_long_runtime__");
    reveal_strlit("__fixture_session_mismatch__");
    reveal_strlit("__fixture_model_mismatch__");
    reveal_strlit("__fixture_unknown_event__");
    reveal_strlit("__fixture_large_result__");
    reveal_strlit("__fixture_terminal_failure__");
    reveal_strlit("__fixture_terminal_failure_without_text__");
    reveal_strlit("__fixture_exit_without_result__");
    reveal_strlit("__fixture_split_utf8_result__");
    reveal_strlit("__fixture_result_then_fragment__");
    reveal_strlit("__fixture_diagnostics__");
    reveal_strlit("__fixture_hold_for_cancel__");
    reveal_strlit("__fixture_early_large_output__");
    reveal_strlit("__fixture_pending_input_cancel__");
    reveal_strlit("__fixture_nonzero_without_input__");
    assert("__fixture_early_large_output__"@.len() == 30 && "__fixture_early_large_output__"@[10] == 'e');
    assert(PENDING_INPUT_CANCELLATION_MARKER@.len() == 32 && PENDING_INPUT_CANCELLATION_MARKER@[10]
        == 'p');
    assert(NONZERO_WITHOUT_INPUT_MARKER@.len() == 33 && NONZERO_WITHOUT_INPUT_MARKER@[10] == 'n');
    assert("__fixture_long_runtime__"@.len() == 24);
    assert("__fixture_session_mismatch__"@.len() == 28);
    assert("__fixture_model_mismatch__"@.len() == 26);
    assert("__fixture_unknown_event__"@.len() == 25);
    assert("__fixture_large_result__"@.len() == 24);
    assert("__fixture_terminal_failure__"@.len() == 28);
    assert("__fixture_terminal_failure_without_text__"@.len() == 41);
    assert forall|place: int| 0 <= place implies !#[trigger] stands_at(
        "__fixture_terminal_failure_without_text__"@,
        place,
        "__fixture_early_large_output__"@,
    ) by {
        let text = "__fixture_terminal_failure_without_text__"@;
        let part = "__fixture_early_large_output__"@;
        if place + part.len() <= text.len() {
            let found = text.subrange(place, place + part.len());
            if place == 0 {
                assert(found[10] == text[10] && text[10] == 't' && part[10] == 'e');
            }
            if place == 1 {
                assert(found[1] == text[2] && text[2] == 'f' && part[1] == '_');
            }
            if place == 2 {
                assert(found[0] == text[2] && text[2] == 'f' && part[0] == '_');
            }
            if place == 3 {
                assert(found[0] == text[3] && text[3] == 'i' && part[0] == '_');
            }
            if place == 4 {
                assert(found[0] == text[4] && text[4] == 'x' && part[0] == '_');
            }
            if place == 5 {
                assert(found[0] == text[5] && text[5] == 't' && part[0] == '_');
            }
            if place == 6 {
                assert(found[0] == text[6] && text[6] == 'u' && part[0] == '_');
            }
            if place == 7 {
                assert(found[0] == text[7] && text[7] == 'r' && part[0] == '_');
            }
            if place == 8 {
                assert(found[0] == text[8] && text[8] == 'e' && part[0] == '_');
            }
            if place == 9 {
                assert(found[1] == text[10] && text[10] == 't' && part[1] == '_');
            }
            if place == 10 {
                assert(found[0] == text[10] && text[10] == 't' && part[0] == '_');
            }
            if place == 11 {
                assert(found[0] == text[11] && text[11] == 'e' && part[0] == '_');
            }
        }
    }
    assert("__fixture_terminal_failure_without_text__"@[10] == 't');
    assert("__fixture_terminal_failure_without_text__"@.subrange(0, 32)[10] == 't');
    assert("__fixture_terminal_failure_without_text__"@.subrange(0, 33)[10] == 't');
    assert("__fixture_exit_without_result__"@.len() == 31);
    assert forall|place: int| 0 <= place implies !#[trigger] stands_at(
        "__fixture_exit_without_result__"@,
        place,
        "__fixture_early_large_output__"@,
    ) by {
        let text = "__fixture_exit_without_result__"@;
        let part = "__fixture_early_large_output__"@;
        if place + part.len() <= text.len() {
            let found = text.subrange(place, place + part.len());
            if place == 0 {
                assert(found[11] == text[11] && text[11] == 'x' && part[11] == 'a');
            }
            if place == 1 {
                assert(found[1] == text[2] && text[2] == 'f' && part[1] == '_');
            }
        }
    }
    assert("__fixture_split_utf8_result__"@.len() == 29);
    assert("__fixture_result_then_fragment__"@.len() == 32);
    assert forall|place: int| 0 <= place implies !#[trigger] stands_at(
        "__fixture_result_then_fragment__"@,
        place,
        "__fixture_early_large_output__"@,
    ) by {
        let text = "__fixture_result_then_fragment__"@;
        let part = "__fixture_early_large_output__"@;
        if place + part.len() <= text.len() {
            let found = text.subrange(place, place + part.len());
            if place == 0 {
                assert(found[10] == text[10] && text[10] == 'r' && part[10] == 'e');
            }
            if place == 1 {
                assert(found[1] == text[2] && text[2] == 'f' && part[1] == '_');
            }
            if place == 2 {
                assert(found[0] == text[2] && text[2] == 'f' && part[0] == '_');
            }
        }
    }
    assert("__fixture_result_then_fragment__"@[10] == 'r');
    assert("__fixture_result_then_fragment__"@.subrange(0, 32)[10] == 'r');
    assert("__fixture_diagnostics__"@.len() == 23);
    assert("__fixture_hold_for_cancel__"@.len() == 27);
}

/// A review of a new session does these actions and ends so, whatever was recorded.
pub open spec fn plays(
    invocation: InvocationView,
    prompt: Seq<char>,
    actions: Seq<ActionView>,
    exit: Exit,
) -> bool {
    forall|records: Result<Seq<Seq<char>>, Seq<char>>|
        !invocation.resume ==> (#[trigger] review_script(
            invocation,
            PromptInputView::Complete(prompt),
            records,
        )).actions =~= actions && review_script(
            invocation,
            PromptInputView::Complete(prompt),
            records,
        ).exit == exit
}

/// A target that is asked to fail does so in the asked way, after it named its session and its
/// model.
pub proof fn asked_failures_are_played(invocation: InvocationView)
    ensures
        ({
            let session = invocation.session;
            let named = ActionView::Emit(init_event(session, invocation.model));
            &&& plays(
                invocation,
                "__fixture_terminal_failure__"@,
                seq![
                    named,
                    ActionView::Complain("fixture provider diagnostic"@),
                    ActionView::Emit(
                        result_event(true, session, Some("fixture provider rejected review"@)),
                    ),
                    ActionView::Sleep { millis: 2000 },
                ],
                Exit::Success,
            )
            &&& plays(
                invocation,
                "__fixture_terminal_failure_without_text__"@,
                seq![named, ActionView::Emit(result_event(true, session, None))],
                Exit::Success,
            )
            &&& plays(
                invocation,
                "__fixture_exit_without_result__"@,
                seq![named],
                Exit::Success,
            )
        }),
{
    lemma_review_prompts();
    lemma_unmarked();
}

/// A target that is asked to name another session or another model names that and nothing else
/// differently.
pub proof fn asked_mismatches_are_played(invocation: InvocationView)
    ensures
        plays(
            invocation,
            "__fixture_session_mismatch__"@,
            seq![
                ActionView::Emit(
                    init_event("00000000-0000-4000-8000-000000000000"@, invocation.model),
                ),
                ActionView::Emit(
                    result_event(
                        false,
                        invocation.session,
                        Some("complete review: "@ + "__fixture_session_mismatch__"@),
                    ),
                ),
            ],
            Exit::Success,
        ),
        plays(
            invocation,
            "__fixture_model_mismatch__"@,
            seq![
                ActionView::Emit(init_event(invocation.session, "other-model"@)),
                ActionView::Emit(
                    result_event(
                        false,
                        invocation.session,
                        Some("complete review: "@ + "__fixture_model_mismatch__"@),
                    ),
                ),
            ],
            Exit::Success,
        ),
{
    lemma_review_prompts();
    lemma_unmarked();
}

/// A target that is asked to take its time, to tell an event that nobody knows, or to give a large
/// result does so.
pub proof fn asked_courses_are_played(invocation: InvocationView)
    ensures
        ({
            let session = invocation.session;
            let named = ActionView::Emit(init_event(session, invocation.model));
            let told = |prompt: Seq<char>|
                ActionView::Emit(
                    result_event(false, session, Some("complete review: "@ + prompt)),
                );
            &&& plays(
                invocation,
                "__fixture_long_runtime__"@,
                seq![
                    ActionView::Sleep { millis: 50 },
                    named,
                    told("__fixture_long_runtime__"@),
                ],
                Exit::Success,
            )
            &&& plays(
                invocation,
                "__fixture_unknown_event__"@,
                seq![
                    named,
                    ActionView::Emit(telemetry_event()),
                    told("__fixture_unknown_event__"@),
                ],
                Exit::Success,
            )
            &&& plays(
                invocation,
                "__fixture_large_result__"@,
                seq![
                    named,
                    ActionView::Emit(
                        result_event(false, session, Some(Seq::new(32768, |i: int| 'r'))),
                    ),
                ],
                Exit::Success,
            )
            &&& plays(
                invocation,
                "__fixture_hold_for_cancel__"@,
                seq![
                    named,
                    ActionView::Sleep { millis: 2000 },
                    told("__fixture_hold_for_cancel__"@),
                ],
                Exit::Success,
            )
            &&& plays(
                invocation,
                "__fixture_diagnostics__"@,
                seq![
                    named,
                    ActionView::Emit(retry_event(1, 2, 0)),
                    ActionView::Sleep { millis: 200 },
                    ActionView::Emit(authentication_event()),
                    ActionView::Emit(retry_event(3, 2, 0)),
                    told("__fixture_diagnostics__"@),
                ],
                Exit::Success,
            )
        }),
{
    lemma_review_prompts();
    lemma_unmarked();
}

/// A target that is asked to split or to break off its output does so.
pub proof fn asked_outputs_are_played(invocation: InvocationView)
    ensures
        ({
            let session = invocation.session;
            let named = ActionView::Emit(init_event(session, invocation.model));
            &&& plays(
                invocation,
                "__fixture_split_utf8_result__"@,
                seq![
                    named,
                    ActionView::EmitSplit(
                        result_event(
                            false,
                            session,
                            Some(
                                "split UTF-8 review: \u{41f}\u{440}\u{438}\u{432}\u{435}\u{442} \u{1f600}"@,
                            ),
                        ),
                    ),
                ],
                Exit::Success,
            )
            &&& plays(
                invocation,
                "__fixture_result_then_fragment__"@,
                seq![
                    named,
                    ActionView::Emit(
                        result_event(false, session, Some("terminal result before fragment"@)),
                    ),
                    ActionView::Write("{\"unterminated\":"@),
                ],
                Exit::Success,
            )
        }),
{
    lemma_review_prompts();
    lemma_unmarked();
}

/// Whether a prompt asks for early output and for nothing else.
pub open spec fn asks_only_for_early_output(prompt: Seq<char>) -> bool {
    &&& occurs(prompt, "__fixture_early_large_output__"@)
    &&& !PENDING_INPUT_CANCELLATION_MARKER@.is_prefix_of(prompt)
    &&& !NONZERO_WITHOUT_INPUT_MARKER@.is_prefix_of(prompt)
}

/// A prompt that holds the mark of early output anywhere gets a flood before anything else, and is
/// answered as any other.
pub proof fn early_output_is_played(invocation: InvocationView, prompt: Seq<char>)
    requires
        asks_only_for_early_output(prompt),
    ensures
        plays(
            invocation,
            prompt,
            seq![
                ActionView::Emit(assistant_event(Seq::new(131072, |i: int| 'x'))),
                ActionView::Emit(init_event(invocation.session, invocation.model)),
                ActionView::Emit(
                    result_event(false, invocation.session, Some("complete review: "@ + prompt)),
                ),
            ],
            Exit::Success,
        ),
{
    lemma_review_prompts();
    lemma_unmarked();
}

/// The first events of a turn, where the target claims another identity of the turn, session, model
/// or prompt.
pub open spec fn opening(
    turn: Seq<char>,
    uuid: Seq<char>,
    session: Seq<char>,
    model: Seq<char>,
    prompt: Seq<char>,
) -> Seq<ActionView> {
    seq![
        ActionView::Emit(lifecycle_event(turn, session, "queued"@)),
        ActionView::Emit(lifecycle_event(turn, session, "started"@)),
        ActionView::Emit(init_event(session, model)),
        ActionView::Emit(replay_event(uuid, session, prompt)),
        ActionView::Emit(tool_use_event(session)),
    ]
}

/// The last events of a turn that completes.
pub open spec fn completion(uuid: Seq<char>, session: Seq<char>, prompt: Seq<char>) -> Seq<
    ActionView,
> {
    seq![
        ActionView::Emit(live_result_event(false, session, "live result: "@ + prompt)),
        ActionView::Emit(lifecycle_event(uuid, session, "completed"@)),
    ]
}

/// The work of a turn between its opening and its completion.
pub open spec fn work(session: Seq<char>, prompt: Seq<char>) -> Seq<ActionView> {
    seq![
        ActionView::Emit(tool_result_event(session, false)),
        ActionView::Emit(delta_event(session, prompt)),
    ]
}

/// Whether a turn with a prompt does these actions and leaves the target so.
pub open spec fn turn_plays(
    invocation: LiveInvocationView,
    uuid: Seq<char>,
    prompt: Seq<char>,
    actions: Seq<ActionView>,
    exit: Exit,
) -> bool {
    let script = turn_script(invocation, LiveTurnView { uuid, prompt });
    script.actions =~= actions && script.exit == exit
}

/// A turn that is asked to claim another identity of itself, session, model or prompt claims that,
/// and completes as any other.
pub proof fn asked_turn_mismatches_are_played(invocation: LiveInvocationView, uuid: Seq<char>)
    ensures
        ({
            let other = "00000000-0000-4000-8000-000000000000"@;
            let session = invocation.session;
            let model = invocation.model;
            let by_session = "__fixture_live_session_mismatch__"@;
            let by_model = "__fixture_live_model_mismatch__"@;
            let by_content = "__fixture_live_content_mismatch__"@;
            let by_uuid = "__fixture_live_uuid_mismatch__"@;
            &&& turn_plays(
                invocation,
                uuid,
                by_session,
                seq![ActionView::Complain("fixture-live-stderr-marker"@)] + opening(
                    uuid,
                    uuid,
                    other,
                    model,
                    by_session,
                ) + work(other, by_session) + completion(uuid, other, by_session),
                Exit::Continue,
            )
            &&& turn_plays(
                invocation,
                uuid,
                by_model,
                opening(uuid, uuid, session, "other-model"@, by_model) + work(session, by_model)
                    + completion(uuid, session, by_model),
                Exit::Continue,
            )
            &&& turn_plays(
                invocation,
                uuid,
                by_content,
                opening(uuid, uuid, session, model, "different replayed content"@) + work(
                    session,
                    by_content,
                ) + completion(uuid, session, by_content),
                Exit::Continue,
            )
            &&& turn_plays(
                invocation,
                uuid,
                by_uuid,
                opening(other, uuid, session, model, by_uuid) + work(session, by_uuid)
                    + completion(uuid, session, by_uuid),
                Exit::Continue,
            )
        }),
{
    lemma_turn_prompts();
}

/// A turn that is asked to break off does so at the asked place, and the target ends.
pub proof fn asked_turn_breaks_are_played(invocation: LiveInvocationView, uuid: Seq<char>)
    ensures
        ({
            let session = invocation.session;
            let model = invocation.model;
            let order = "__fixture_live_lifecycle_order_mismatch__"@;
            let unstarted = "__fixture_live_result_without_started__"@;
            let malformed = "__fixture_live_malformed_tool_result__"@;
            let unknown = "__fixture_live_unknown_lifecycle__"@;
            let failing = "__fixture_live_provider_failure__"@;
            &&& turn_plays(
                invocation,
                uuid,
                "__fixture_live_invalid_json__"@,
                seq![ActionView::Write("{invalid json}\n"@)],
                Exit::Success,
            )
            &&& turn_plays(
                invocation,
                uuid,
                "__fixture_live_unexpected_exit__"@,
                Seq::empty(),
                Exit::Success,
            )
            &&& turn_plays(
                invocation,
                uuid,
                order,
                seq![ActionView::Emit(lifecycle_event(uuid, session, "started"@))],
                Exit::Success,
            )
            &&& turn_plays(
                invocation,
                uuid,
                unstarted,
                seq![
                    ActionView::Emit(lifecycle_event(uuid, session, "queued"@)),
                    ActionView::Emit(init_event(session, model)),
                    ActionView::Emit(replay_event(uuid, session, unstarted)),
                    ActionView::Emit(
                        live_result_event(
                            false,
                            session,
                            "fixture live result without started turn"@,
                        ),
                    ),
                ],
                Exit::Success,
            )
            &&& turn_plays(
                invocation,
                uuid,
                malformed,
                opening(uuid, uuid, session, model, malformed).push(
                    ActionView::Emit(tool_result_event(session, true)),
                ),
                Exit::Success,
            )
            &&& turn_plays(
                invocation,
                uuid,
                unknown,
                (opening(uuid, uuid, session, model, unknown) + work(session, unknown)).push(
                    ActionView::Emit(lifecycle_event(uuid, session, "unknown"@)),
                ),
                Exit::Success,
            )
            &&& turn_plays(
                invocation,
                uuid,
                failing,
                (opening(uuid, uuid, session, model, failing) + work(session, failing)).push(
                    ActionView::Emit(
                        live_result_event(true, session, "fixture live provider failure"@),
                    ),
                ),
                Exit::Success,
            )
        }),
{
    lemma_turn_prompts();
}

/// A turn that is asked to wait does so before its first event or before its result, and completes
/// as any other.
pub proof fn asked_turn_waits_are_played(invocation: LiveInvocationView, uuid: Seq<char>)
    ensures
        ({
            let session = invocation.session;
            let model = invocation.model;
            let early = "__fixture_live_hold__"@;
            let late = "__fixture_live_hold_after_start__"@;
            let pause = seq![ActionView::Sleep { millis: 2000 }];
            &&& turn_plays(
                invocation,
                uuid,
                early,
                pause + opening(uuid, uuid, session, model, early) + work(session, early)
                    + completion(uuid, session, early),
                Exit::Continue,
            )
            &&& turn_plays(
                invocation,
                uuid,
                late,
                opening(uuid, uuid, session, model, late) + work(session, late) + pause
                    + completion(uuid, session, late),
                Exit::Continue,
            )
        }),
{
    lemma_turn_prompts();
}

} // verus!
