//! Frames the output of a direct child into complete lines.

use vstd::prelude::*;
use vstd::string::*;
use vstd::std_specs::iter::IteratorSpec;
use vstd::utf8::{decode_utf8, valid_utf8};

use crate::contract::target::PROVIDER;
use crate::text::{joined, joined3, views};

verus! {

/// The message with which bytes that are no UTF-8 are refused.
pub uninterp spec fn utf8_refusal(bytes: Seq<u8>) -> Seq<char>;

/// Bytes read as text, with a replacement for whatever is no UTF-8.
pub uninterp spec fn lossy_text(bytes: Seq<u8>) -> Seq<char>;

/// Calls `String::push`, which appends one character.
pub assume_specification[ String::push ](text: &mut String, character: char)
    ensures
        final(text)@ == old(text)@.push(character),
;

/// Calls `std::str::from_utf8`, which decodes exactly the valid UTF-8; the displayed message of a
/// refusal is a function of the bytes and is named [`utf8_refusal`].
#[verifier::external_body]
pub(crate) fn decode_text(bytes: &Vec<u8>) -> (decoded: Result<String, String>)
    ensures
        match decoded {
            Ok(text) => valid_utf8(bytes@) && text@ == decode_utf8(bytes@),
            Err(message) => !valid_utf8(bytes@) && message@ == utf8_refusal(bytes@),
        },
{
    match std::str::from_utf8(bytes) {
        Ok(text) => Ok(text.to_owned()),
        Err(error) => Err(error.to_string()),
    }
}

/// Calls `String::from_utf8_lossy`. The text is a function of the bytes and is named
/// [`lossy_text`]; valid UTF-8 is decoded as it is.
#[verifier::external_body]
fn decode_lossy(bytes: &Vec<u8>) -> (text: String)
    ensures
        text@ == lossy_text(bytes@),
        valid_utf8(bytes@) ==> text@ == decode_utf8(bytes@),
{
    String::from_utf8_lossy(bytes).into_owned()
}

/// The number of bytes up to and including the last newline.
pub open spec fn complete_length(bytes: Seq<u8>) -> int
    decreases bytes.len(),
{
    if bytes.len() == 0 {
        0
    } else if bytes.last() == 10u8 {
        bytes.len() as int
    } else {
        complete_length(bytes.drop_last())
    }
}

/// A line without the carriage return that its line ending may begin with.
pub open spec fn without_return(line: Seq<char>) -> Seq<char> {
    if line.len() > 0 && line.last() == '\r' {
        line.drop_last()
    } else {
        line
    }
}

/// The lines of a text of which `current` has already been read as the beginning of a line.
pub open spec fn lines_from(text: Seq<char>, current: Seq<char>) -> Seq<Seq<char>>
    decreases text.len(),
{
    if text.len() == 0 {
        if current.len() == 0 {
            Seq::empty()
        } else {
            seq![current]
        }
    } else if text[0] == '\n' {
        seq![without_return(current)] + lines_from(text.drop_first(), Seq::empty())
    } else {
        lines_from(text.drop_first(), current.push(text[0]))
    }
}

/// The lines of a text.
pub open spec fn lines_of(text: Seq<char>) -> Seq<Seq<char>> {
    lines_from(text, Seq::empty())
}

/// What taking the complete lines of buffered output yields.
pub open spec fn lines_taken(bytes: Seq<u8>) -> Result<Seq<Seq<char>>, Seq<char>> {
    let complete = bytes.take(complete_length(bytes));
    if complete.len() == 0 {
        Ok(Seq::empty())
    } else if valid_utf8(complete) {
        Ok(lines_of(decode_utf8(complete)))
    } else {
        Err(PROVIDER@ + " stdout was not UTF-8 stream JSON: "@ + utf8_refusal(complete))
    }
}

proof fn lemma_complete_length(bytes: Seq<u8>)
    ensures
        0 <= complete_length(bytes) <= bytes.len(),
        complete_length(bytes) > 0 ==> bytes[complete_length(bytes) - 1] == 10u8,
        forall|i: int| complete_length(bytes) <= i < bytes.len() ==> #[trigger] bytes[i] != 10u8,
    decreases bytes.len(),
{
    if bytes.len() > 0 && bytes.last() != 10u8 {
        lemma_complete_length(bytes.drop_last());
        let rest = bytes.drop_last();
        assert forall|i: int| complete_length(bytes) <= i < bytes.len() implies #[trigger] bytes[i]
            != 10u8 by {
            if i < rest.len() {
                assert(rest[i] == bytes[i]);
            }
        }
    }
}

/// The number of bytes up to and including the last newline.
fn complete(bytes: &Vec<u8>) -> (length: usize)
    ensures
        length == complete_length(bytes@),
{
    let mut length: usize = bytes.len();
    proof {
        assert(bytes@.take(length as int) =~= bytes@);
    }
    while length > 0 && bytes[length - 1] != 10u8
        invariant
            length <= bytes@.len(),
            complete_length(bytes@) == complete_length(bytes@.take(length as int)),
        decreases length,
    {
        proof {
            assert(bytes@.take(length as int).drop_last() =~= bytes@.take(length - 1));
            assert(bytes@.take(length as int).last() == bytes@[length - 1]);
        }
        length = length - 1;
    }
    proof {
        if length > 0 {
            assert(bytes@.take(length as int).last() == bytes@[length - 1]);
        }
    }
    length
}

/// The lines of a text.
pub fn split_lines(text: &str) -> (lines: Vec<String>)
    ensures
        views(lines@) == lines_of(text@),
{
    broadcast use vstd::string::group_string_axioms;

    let mut lines: Vec<String> = Vec::new();
    let mut current: String = String::new();
    let mut pending_return: bool = false;
    let mut rest = text.chars();
    let ghost mut raw: Seq<char> = Seq::empty();
    proof {
        assert(views(lines@) =~= Seq::<Seq<char>>::empty());
        assert(views(lines@) + lines_from(rest.remaining(), raw) =~= lines_of(text@));
    }
    loop
        invariant
            rest.decrease() is Some,
            lines_of(text@) == views(lines@) + lines_from(rest.remaining(), raw),
            raw == (if pending_return {
                current@.push('\r')
            } else {
                current@
            }),
            !pending_return ==> raw.len() == 0 || raw.last() != '\r',
        ensures
            lines_of(text@) == views(lines@) + lines_from(Seq::empty(), raw),
            raw == (if pending_return {
                current@.push('\r')
            } else {
                current@
            }),
        decreases rest.decrease()->Some_0,
    {
        let ghost remaining = rest.remaining();
        let ghost before = views(lines@);
        match rest.next() {
            None => {
                proof {
                    assert(remaining =~= Seq::empty());
                }
                break;
            },
            Some(character) => {
                proof {
                    assert(rest.remaining() == remaining.drop_first());
                    assert(character == remaining[0]);
                }
                if character == '\n' {
                    proof {
                        assert(without_return(raw) =~= current@);
                        assert(before + lines_from(remaining, raw) =~= before.push(current@)
                            + lines_from(rest.remaining(), Seq::empty()));
                    }
                    lines.push(current);
                    proof {
                        assert(views(lines@) =~= before.push(lines@.last()@));
                        raw = Seq::empty();
                    }
                    current = String::new();
                    pending_return = false;
                } else {
                    if pending_return {
                        current.push('\r');
                    }
                    if character == '\r' {
                        pending_return = true;
                    } else {
                        pending_return = false;
                        current.push(character);
                    }
                    proof {
                        raw = raw.push(character);
                    }
                }
            },
        }
    }
    if pending_return {
        current.push('\r');
    }
    let ghost before = views(lines@);
    if !current.as_str().is_empty() {
        lines.push(current);
        proof {
            assert(views(lines@) =~= before + seq![raw]);
        }
    } else {
        proof {
            assert(views(lines@) =~= before + Seq::<Seq<char>>::empty());
        }
    }
    lines
}

/// The output of a direct child that has been received and not yet taken.
pub struct OutputBuffer {
    stdout: Vec<u8>,
    stderr: Vec<u8>,
}

impl OutputBuffer {
    /// The bytes of the standard output that have not been taken.
    pub closed spec fn pending(&self) -> Seq<u8> {
        self.stdout@
    }

    /// The bytes of the standard error.
    pub closed spec fn errors(&self) -> Seq<u8> {
        self.stderr@
    }

    pub fn new() -> (buffer: OutputBuffer)
        ensures
            buffer.pending() == Seq::<u8>::empty(),
            buffer.errors() == Seq::<u8>::empty(),
    {
        OutputBuffer { stdout: Vec::new(), stderr: Vec::new() }
    }

    /// Receives bytes of the standard output.
    pub fn receive_stdout(&mut self, bytes: &[u8])
        ensures
            final(self).pending() == old(self).pending() + bytes@,
            final(self).errors() == old(self).errors(),
    {
        self.stdout.extend_from_slice(bytes);
        proof {
            assert(self.stdout@ =~= old(self).stdout@ + bytes@);
        }
    }

    /// Receives bytes of the standard error.
    pub fn receive_stderr(&mut self, bytes: &[u8])
        ensures
            final(self).errors() == old(self).errors() + bytes@,
            final(self).pending() == old(self).pending(),
    {
        self.stderr.extend_from_slice(bytes);
        proof {
            assert(self.stderr@ =~= old(self).stderr@ + bytes@);
        }
    }

    /// Takes the complete lines of the standard output. What follows the last newline stays, and
    /// complete lines are gone even where they are no UTF-8.
    pub fn take_stdout_lines(&mut self) -> (taken: Result<Vec<String>, String>)
        ensures
            final(self).pending() == old(self).pending().skip(
                complete_length(old(self).pending()),
            ),
            final(self).errors() == old(self).errors(),
            match taken {
                Ok(lines) => lines_taken(old(self).pending()) == Ok::<_, Seq<char>>(
                    views(lines@),
                ),
                Err(message) => lines_taken(old(self).pending()) == Err::<Seq<Seq<char>>, _>(
                    message@,
                ),
            },
    {
        let ghost bytes = self.stdout@;
        let length = complete(&self.stdout);
        proof {
            lemma_complete_length(bytes);
        }
        if length == 0 {
            let none: Vec<String> = Vec::new();
            proof {
                assert(views(none@) =~= Seq::<Seq<char>>::empty());
                assert(bytes.skip(0) =~= bytes);
            }
            return Ok(none);
        }
        let suffix = self.stdout.split_off(length);
        let mut complete = suffix;
        std::mem::swap(&mut complete, &mut self.stdout);
        proof {
            assert(complete@ =~= bytes.take(length as int));
            assert(self.stdout@ =~= bytes.skip(length as int));
        }
        match decode_text(&complete) {
            Ok(text) => Ok(split_lines(text.as_str())),
            Err(error) => Err(
                joined3(PROVIDER, " stdout was not UTF-8 stream JSON: ", error.as_str()),
            ),
        }
    }

    /// The standard error as text.
    pub fn stderr(&self) -> (text: String)
        ensures
            text@ == lossy_text(self.errors()),
    {
        decode_lossy(&self.stderr)
    }
}

/// A message with what the child wrote to its standard error, where it wrote anything.
pub open spec fn message_with_errors(message: Seq<char>, errors: Seq<char>) -> Seq<char> {
    if errors.len() == 0 {
        message
    } else {
        message + ": "@ + errors
    }
}

/// A message with what the child wrote to its standard error, where it wrote anything.
pub fn with_stderr(message: String, stderr: &str) -> (text: String)
    ensures
        text@ == message_with_errors(message@, stderr@),
{
    if stderr.is_empty() {
        message
    } else {
        let mut text = joined(message.as_str(), ": ");
        text.append(stderr);
        text
    }
}

} // verus!
