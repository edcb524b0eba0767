//! The prompt that the deterministic target reads.

use vstd::prelude::*;
use vstd::utf8::{decode_utf8, encode_utf8, valid_utf8};

use crate::target::output::{decode_text, utf8_refusal};
use crate::text::{begins_with, joined, same_text};

verus! {

/// The prompt whose input is never read to its end.
pub const PENDING_INPUT_CANCELLATION_MARKER: &'static str = "__fixture_pending_input_cancel__";

/// The prompt that fails before its input is read to its end.
pub const NONZERO_WITHOUT_INPUT_MARKER: &'static str = "__fixture_nonzero_without_input__";

/// The prompt as far as it was read.
#[derive(Debug, PartialEq, Eq)]
pub enum PromptInput {
    /// The whole prompt.
    Complete(String),
    PendingInputCancellation,
    NonzeroWithoutInput,
}

/// The mathematical content of [`PromptInput`].
#[verifier::ext_equal]
pub enum PromptInputView {
    Complete(Seq<char>),
    PendingInputCancellation,
    NonzeroWithoutInput,
}

impl View for PromptInput {
    type V = PromptInputView;

    open spec fn view(&self) -> PromptInputView {
        match *self {
            PromptInput::Complete(prompt) => PromptInputView::Complete(prompt@),
            PromptInput::PendingInputCancellation => PromptInputView::PendingInputCancellation,
            PromptInput::NonzeroWithoutInput => PromptInputView::NonzeroWithoutInput,
        }
    }
}

impl PromptInputView {
    /// Whether the prompt begins with a text; of a prompt that was not read to its end, whether it
    /// is its marker.
    pub open spec fn marked(self, value: Seq<char>) -> bool {
        match self {
            PromptInputView::Complete(prompt) => value.is_prefix_of(prompt),
            PromptInputView::PendingInputCancellation => value
                == PENDING_INPUT_CANCELLATION_MARKER@,
            PromptInputView::NonzeroWithoutInput => value == NONZERO_WITHOUT_INPUT_MARKER@,
        }
    }

    /// The prompt as it is recorded.
    pub open spec fn record(self) -> Seq<char> {
        match self {
            PromptInputView::Complete(prompt) => prompt,
            PromptInputView::PendingInputCancellation => PENDING_INPUT_CANCELLATION_MARKER@,
            PromptInputView::NonzeroWithoutInput => NONZERO_WITHOUT_INPUT_MARKER@,
        }
    }
}

impl PromptInput {
    /// Whether the prompt begins with a text; of a prompt that was not read to its end, whether it
    /// is its marker.
    pub fn matches_marker(&self, value: &str) -> (marked: bool)
        ensures
            marked == self@.marked(value@),
    {
        match self {
            PromptInput::Complete(prompt) => begins_with(prompt.as_str(), value),
            PromptInput::PendingInputCancellation => same_text(
                value,
                PENDING_INPUT_CANCELLATION_MARKER,
            ),
            PromptInput::NonzeroWithoutInput => same_text(value, NONZERO_WITHOUT_INPUT_MARKER),
        }
    }

    /// The prompt as it is recorded.
    pub fn recorded(&self) -> (record: &str)
        ensures
            record@ == self@.record(),
    {
        match self {
            PromptInput::Complete(prompt) => prompt.as_str(),
            PromptInput::PendingInputCancellation => PENDING_INPUT_CANCELLATION_MARKER,
            PromptInput::NonzeroWithoutInput => NONZERO_WITHOUT_INPUT_MARKER,
        }
    }
}

/// Whether bytes begin with a text.
pub open spec fn bytes_begin(bytes: Seq<u8>, start: Seq<char>) -> bool {
    encode_utf8(start).is_prefix_of(bytes)
}

/// Whether bytes begin with a text.
fn begin_with(bytes: &Vec<u8>, start: &str) -> (begin: bool)
    ensures
        begin == bytes_begin(bytes@, start@),
{
    let expected = start.as_bytes();
    if bytes.len() < expected.len() {
        return false;
    }
    let mut index: usize = 0;
    while index < expected.len()
        invariant
            index <= expected@.len() <= bytes@.len(),
            expected@ == encode_utf8(start@),
            forall|i: int| 0 <= i < index ==> bytes@[i] == expected@[i],
        decreases expected@.len() - index,
    {
        if bytes[index] != expected[index] {
            proof {
                assert(bytes@.subrange(0, expected@.len() as int)[index as int]
                    != expected@[index as int]);
            }
            return false;
        }
        index = index + 1;
    }
    proof {
        assert(bytes@.subrange(0, expected@.len() as int) =~= expected@);
    }
    true
}

/// The number of bytes that tell the two markers apart from any other prompt.
pub fn required_prefix() -> (length: usize)
    ensures
        length >= encode_utf8(PENDING_INPUT_CANCELLATION_MARKER@).len(),
        length >= encode_utf8(NONZERO_WITHOUT_INPUT_MARKER@).len(),
        length == encode_utf8(PENDING_INPUT_CANCELLATION_MARKER@).len() || length == encode_utf8(
            NONZERO_WITHOUT_INPUT_MARKER@,
        ).len(),
{
    let pending: usize = PENDING_INPUT_CANCELLATION_MARKER.as_bytes().len();
    let nonzero: usize = NONZERO_WITHOUT_INPUT_MARKER.as_bytes().len();
    if pending < nonzero {
        nonzero
    } else {
        pending
    }
}

/// What the first bytes of the input tell.
#[derive(Debug, PartialEq, Eq)]
pub enum PromptStart {
    /// The input need not be read further.
    Marked(PromptInput),
    /// The text so far.
    Partial(String),
}

/// Tells what the first bytes of the input are: a marker, or the start of a text.
pub fn begin_prompt(prefix: Vec<u8>) -> (start: Result<PromptStart, String>)
    ensures
        match start {
            Ok(PromptStart::Marked(input)) => {
                ||| bytes_begin(prefix@, PENDING_INPUT_CANCELLATION_MARKER@) && input
                    is PendingInputCancellation
                ||| !bytes_begin(prefix@, PENDING_INPUT_CANCELLATION_MARKER@) && bytes_begin(
                    prefix@,
                    NONZERO_WITHOUT_INPUT_MARKER@,
                ) && input is NonzeroWithoutInput
            },
            Ok(PromptStart::Partial(text)) => !bytes_begin(
                prefix@,
                PENDING_INPUT_CANCELLATION_MARKER@,
            ) && !bytes_begin(prefix@, NONZERO_WITHOUT_INPUT_MARKER@) && valid_utf8(prefix@)
                && text@ == decode_utf8(prefix@),
            Err(message) => !bytes_begin(prefix@, PENDING_INPUT_CANCELLATION_MARKER@)
                && !bytes_begin(prefix@, NONZERO_WITHOUT_INPUT_MARKER@) && !valid_utf8(prefix@)
                && message@ == utf8_refusal(prefix@),
        },
{
    if begin_with(&prefix, PENDING_INPUT_CANCELLATION_MARKER) {
        return Ok(PromptStart::Marked(PromptInput::PendingInputCancellation));
    }
    if begin_with(&prefix, NONZERO_WITHOUT_INPUT_MARKER) {
        return Ok(PromptStart::Marked(PromptInput::NonzeroWithoutInput));
    }
    match decode_text(&prefix) {
        Ok(text) => Ok(PromptStart::Partial(text)),
        Err(message) => Err(message),
    }
}

/// Completes a prompt with the rest of the input. An empty prompt is refused.
pub fn finish_prompt(partial: String, rest: &str) -> (prompt: Result<PromptInput, String>)
    ensures
        match prompt {
            Ok(input) => (partial@ + rest@).len() > 0 && input@ == PromptInputView::Complete(
                partial@ + rest@,
            ),
            Err(message) => (partial@ + rest@).len() == 0 && message@ == "prompt stdin was empty"@,
        },
{
    let prompt = joined(partial.as_str(), rest);
    if prompt.as_str().is_empty() {
        return Err("prompt stdin was empty".to_owned());
    }
    Ok(PromptInput::Complete(prompt))
}

} // verus!
