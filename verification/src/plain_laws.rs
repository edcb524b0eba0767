//! What holds of the plain values that everything else is told in: members, lines, orders and
//! digits.

use vstd::prelude::*;
use vstd::utf8::encode_utf8;

use crate::contract::control::durable_range;
use crate::contract::target::{TargetLiveTurnView, TargetTurnId};
use crate::control::admission::hexadecimal;
use crate::json::{first_member, JsonView};
use crate::target::conversation_codec::{CodecView, TurnEntryView, TurnPhase};
use crate::target::output::{complete_length, lines_from, lines_of, message_with_errors};
use crate::text::{bytes_before, occurs, stands_at, text_before};

verus! {

/// The member of a name is the first one of that name, whatever follows it.
pub proof fn member_is_the_first_of_its_name(
    members: Seq<(Seq<char>, JsonView)>,
    name: Seq<char>,
    at: int,
)
    requires
        0 <= at < members.len(),
        members[at].0 == name,
        forall|i: int| 0 <= i < at ==> (#[trigger] members[i]).0 != name,
    ensures
        JsonView::Object(members).member(name) == Some(members[at].1),
    decreases members.len(),
{
    if at > 0 {
        let rest = members.drop_first();
        assert forall|i: int| 0 <= i < at - 1 implies (#[trigger] rest[i]).0 != name by {
            assert(rest[i] == members[i + 1]);
        }
        member_is_the_first_of_its_name(rest, name, at - 1);
        assert(members[0].0 != name);
        assert(first_member(members, name) == first_member(rest, name));
    }
}

/// An object without a member of a name has none, and nothing but an object has members.
pub proof fn absent_member_is_none(
    members: Seq<(Seq<char>, JsonView)>,
    name: Seq<char>,
    other: JsonView,
)
    requires
        forall|i: int| 0 <= i < members.len() ==> (#[trigger] members[i]).0 != name,
    ensures
        JsonView::Object(members).member(name) is None,
        !(other is Object) ==> other.member(name) is None,
    decreases members.len(),
{
    if members.len() > 0 {
        let rest = members.drop_first();
        assert forall|i: int| 0 <= i < rest.len() implies (#[trigger] rest[i]).0 != name by {
            assert(rest[i] == members[i + 1]);
        }
        absent_member_is_none(rest, name, other);
        assert(members[0].0 != name);
    }
}

/// A member is read by its kind: as a text, a truth value, an unsigned number, an object or an
/// array exactly where it is one.
pub proof fn member_is_read_by_its_kind(
    value: JsonView,
    name: Seq<char>,
    text: Seq<char>,
    truth: bool,
    number: u64,
    members: Seq<(Seq<char>, JsonView)>,
    items: Seq<JsonView>,
)
    ensures
        value.text_of(name) == Some(text) <==> value.member(name) == Some(JsonView::Text(text)),
        value.bool_of(name) == Some(truth) <==> value.member(name) == Some(JsonView::Bool(truth)),
        value.unsigned_of(name) == Some(number) <==> value.member(name) == Some(
            JsonView::Number(Some(number)),
        ),
        value.object_of(name) == Some(JsonView::Object(members)) <==> value.member(name) == Some(
            JsonView::Object(members),
        ),
        value.items_of(name) == Some(items) <==> value.member(name) == Some(
            JsonView::Array(items),
        ),
{
}

/// A line ends at its newline, without the carriage return before it, and what follows is read on
/// by itself.
pub proof fn line_ends_at_its_newline(line: Seq<char>, rest: Seq<char>)
    requires
        forall|i: int| 0 <= i < line.len() ==> #[trigger] line[i] != '\n',
    ensures
        line.len() == 0 || line.last() != '\r' ==> lines_of(line.push('\n') + rest) == seq![line]
            + lines_of(rest),
        lines_of(line.push('\r').push('\n') + rest) == seq![line] + lines_of(rest),
{
    lemma_line(line, rest, Seq::empty());
    assert(Seq::<char>::empty() + line =~= line);
    let longer = line.push('\r');
    assert forall|i: int| 0 <= i < longer.len() implies #[trigger] longer[i] != '\n' by {
        if i < line.len() {
            assert(longer[i] == line[i]);
        }
    }
    lemma_line(longer, rest, Seq::empty());
    assert(Seq::<char>::empty() + longer =~= longer);
    assert(longer.drop_last() =~= line);
}

/// A line that was begun ends at its newline.
proof fn lemma_line(line: Seq<char>, rest: Seq<char>, begun: Seq<char>)
    requires
        forall|i: int| 0 <= i < line.len() ==> #[trigger] line[i] != '\n',
    ensures
        ({
            let whole = begun + line;
            lines_from(line.push('\n') + rest, begun) == seq![
                if whole.len() > 0 && whole.last() == '\r' {
                    whole.drop_last()
                } else {
                    whole
                },
            ] + lines_of(rest)
        }),
    decreases line.len(),
{
    let text = line.push('\n') + rest;
    if line.len() == 0 {
        assert(text[0] == '\n');
        assert(text.drop_first() =~= rest);
        assert(begun + line =~= begun);
    } else {
        let shorter = line.drop_first();
        assert(text[0] == line[0]);
        assert(text.drop_first() =~= shorter.push('\n') + rest);
        assert forall|i: int| 0 <= i < shorter.len() implies #[trigger] shorter[i] != '\n' by {
            assert(shorter[i] == line[i + 1]);
        }
        lemma_line(shorter, rest, begun.push(line[0]));
        assert(begun.push(line[0]) + shorter =~= begun + line);
    }
}

/// Output is complete up to its last newline.
pub proof fn output_is_complete_up_to_its_last_newline(complete: Seq<u8>, rest: Seq<u8>)
    requires
        forall|i: int| 0 <= i < rest.len() ==> #[trigger] rest[i] != 10u8,
    ensures
        complete_length(complete.push(10u8) + rest) == complete.len() + 1,
        complete_length(rest) == 0,
    decreases rest.len(),
{
    let whole = complete.push(10u8) + rest;
    if rest.len() == 0 {
        assert(whole =~= complete.push(10u8));
    } else {
        let shorter = rest.drop_last();
        assert(whole.drop_last() =~= complete.push(10u8) + shorter);
        assert(whole.last() == rest[rest.len() - 1]);
        assert(rest.last() == rest[rest.len() - 1]);
        assert forall|i: int| 0 <= i < shorter.len() implies #[trigger] shorter[i] != 10u8 by {
            assert(shorter[i] == rest[i]);
        }
        output_is_complete_up_to_its_last_newline(complete, shorter);
    }
}

/// A message tells the whole standard error behind a colon, where there was any.
pub proof fn message_tells_standard_error(message: Seq<char>, errors: Seq<char>)
    ensures
        errors.len() > 0 ==> message_with_errors(message, errors) == message + ": "@ + errors,
        message_with_errors(message, Seq::empty()) == message,
{
}

/// Of two texts the one is before the other whose encoding has the smaller byte at their first
/// difference, or ends there.
pub proof fn texts_are_ordered_by_their_first_difference(
    left: Seq<char>,
    right: Seq<char>,
    at: int,
)
    requires
        0 <= at <= encode_utf8(left).len(),
        at < encode_utf8(right).len(),
        forall|i: int| 0 <= i < at ==> #[trigger] encode_utf8(left)[i] == encode_utf8(right)[i],
        at < encode_utf8(left).len() ==> encode_utf8(left)[at] != encode_utf8(right)[at],
    ensures
        text_before(left, right) <==> at == encode_utf8(left).len() || encode_utf8(left)[at]
            < encode_utf8(right)[at],
{
    lemma_first_difference(encode_utf8(left), encode_utf8(right), at);
}

/// Of two byte strings the first difference decides.
proof fn lemma_first_difference(left: Seq<u8>, right: Seq<u8>, at: int)
    requires
        0 <= at <= left.len(),
        at < right.len(),
        forall|i: int| 0 <= i < at ==> #[trigger] left[i] == right[i],
        at < left.len() ==> left[at] != right[at],
    ensures
        bytes_before(left, right) <==> at == left.len() || left[at] < right[at],
    decreases at,
{
    if at > 0 {
        assert(left[0] == right[0]);
        let shorter = left.drop_first();
        assert forall|i: int| 0 <= i < at - 1 implies #[trigger] shorter[i]
            == right.drop_first()[i] by {
            assert(left[i + 1] == right[i + 1]);
        }
        lemma_first_difference(shorter, right.drop_first(), at - 1);
    }
}

/// A text occurs in another exactly where it stands between two other texts.
pub proof fn text_occurs_between(before: Seq<char>, part: Seq<char>, after: Seq<char>)
    ensures
        occurs(before + part + after, part),
{
    let whole = before + part + after;
    let place = before.len() as int;
    assert(whole.subrange(place, place + part.len()) =~= part);
    assert(stands_at(whole, place, part));
}

/// Every byte is told by two lower-case hexadecimal digits, the higher one first.
pub proof fn bytes_are_told_by_two_digits(bytes: Seq<u8>, at: int)
    requires
        0 <= at < bytes.len(),
    ensures
        hexadecimal(bytes).len() == 2 * bytes.len(),
        ({
            let digits = seq![
                '0',
                '1',
                '2',
                '3',
                '4',
                '5',
                '6',
                '7',
                '8',
                '9',
                'a',
                'b',
                'c',
                'd',
                'e',
                'f',
            ];
            &&& hexadecimal(bytes)[2 * at] == digits[bytes[at] as int / 16]
            &&& hexadecimal(bytes)[2 * at + 1] == digits[bytes[at] as int % 16]
        }),
    decreases bytes.len(),
{
    let rest = bytes.drop_last();
    if at < rest.len() {
        bytes_are_told_by_two_digits(rest, at);
        assert(rest[at] == bytes[at]);
        assert(hexadecimal(bytes)[2 * at] == hexadecimal(rest)[2 * at]);
        assert(hexadecimal(bytes)[2 * at + 1] == hexadecimal(rest)[2 * at + 1]);
    } else {
        lemma_hexadecimal_length(rest);
    }
}

/// The number of digits of bytes.
proof fn lemma_hexadecimal_length(bytes: Seq<u8>)
    ensures
        hexadecimal(bytes).len() == 2 * bytes.len(),
    decreases bytes.len(),
{
    if bytes.len() > 0 {
        lemma_hexadecimal_length(bytes.drop_last());
    }
}

/// A number is in the durable range exactly where it is a non-negative signed number.
pub proof fn durable_numbers_are_signed(number: u64)
    ensures
        durable_range(number) <==> number < 0x8000_0000_0000_0000,
{
}

/// A codec with a turn that was just registered, or is anything but completed, is not done; one
/// all of whose turns are completed is.
pub proof fn codec_is_done_with_its_turns(
    codec: CodecView,
    turn: TargetLiveTurnView,
    unfinished: TargetTurnId,
)
    ensures
        !codec.with_turn(
            TurnEntryView { turn, phase: TurnPhase::AwaitingQueue, result: None },
        ).all_done(),
        codec.turns.contains_key(unfinished) && (codec.turns[unfinished].phase is AwaitingQueue
            || codec.turns[unfinished].phase is Queued || codec.turns[unfinished].phase is Started
            || codec.turns[unfinished].phase is ResultObserved) ==> !codec.all_done(),
        (forall|id: TargetTurnId| #[trigger]
            codec.turns.contains_key(id) ==> codec.turns[id].phase is Completed)
            ==> codec.all_done(),
        CodecView::empty().all_done(),
{
    let after = codec.with_turn(
        TurnEntryView { turn, phase: TurnPhase::AwaitingQueue, result: None },
    );
    assert(after.turns.contains_key(turn.turn_id));
}

} // verus!
