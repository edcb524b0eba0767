//! Text, order and views shared by the whole library.

use vstd::prelude::*;
use vstd::std_specs::iter::IteratorSpec;
use vstd::string::*;
use vstd::utf8::{encode_utf8, encode_utf8_decode_utf8};

verus! {

/// The views of a sequence of values, element by element.
pub open spec fn views<T: View>(values: Seq<T>) -> Seq<T::V> {
    values.map_values(|value: T| value@)
}

/// The view of an optional value.
pub open spec fn optional<T: View>(value: Option<T>) -> Option<T::V> {
    match value {
        Some(inner) => Some(inner@),
        None => None,
    }
}

/// The content of a result that is refused with a message.
pub open spec fn told<T: View>(result: Result<T, String>) -> Result<T::V, Seq<char>> {
    match result {
        Ok(value) => Ok(value@),
        Err(message) => Err(message@),
    }
}

/// Whether two texts hold the same characters.
pub fn same_text(left: &str, right: &str) -> (same: bool)
    ensures
        same == (left@ == right@),
{
    left.to_owned() == right.to_owned()
}

/// Whether two optional texts are both absent, or both hold the same characters.
pub fn same_optional_text(left: &Option<String>, right: &Option<String>) -> (same: bool)
    ensures
        same == (optional(*left) == optional(*right)),
{
    match (left, right) {
        (Some(left), Some(right)) => *left == *right,
        (None, None) => true,
        _ => false,
    }
}

/// One text followed by another.
pub fn joined(first: &str, second: &str) -> (text: String)
    ensures
        text@ == first@ + second@,
{
    let mut text = first.to_owned();
    text.append(second);
    text
}

/// Three texts, one after the other.
pub fn joined3(first: &str, second: &str, third: &str) -> (text: String)
    ensures
        text@ == first@ + second@ + third@,
{
    let mut text = joined(first, second);
    text.append(third);
    text
}

/// The characters of a text.
pub fn characters(text: &str) -> (characters: Vec<char>)
    ensures
        characters@ == text@,
{
    broadcast use vstd::string::group_string_axioms;

    let mut characters: Vec<char> = Vec::new();
    let mut rest = text.chars();
    proof {
        assert(characters@ + rest.remaining() =~= text@);
    }
    loop
        invariant
            rest.decrease() is Some,
            characters@ + rest.remaining() == text@,
        ensures
            characters@ == text@,
        decreases rest.decrease()->Some_0,
    {
        let ghost remaining = rest.remaining();
        match rest.next() {
            Some(character) => {
                let ghost before = characters@;
                characters.push(character);
                proof {
                    assert(characters@ + rest.remaining() =~= before + remaining);
                }
            },
            None => {
                proof {
                    assert(characters@ + remaining =~= characters@);
                }
                break;
            },
        }
    }
    characters
}

/// Whether a text begins with another.
pub fn begins_with(text: &str, start: &str) -> (begins: bool)
    ensures
        begins == start@.is_prefix_of(text@),
{
    let text = characters(text);
    let start = characters(start);
    matches_at(&text, 0, &start)
}

/// Whether a text stands at a place of another.
pub open spec fn stands_at(text: Seq<char>, place: int, part: Seq<char>) -> bool {
    place + part.len() <= text.len() && text.subrange(place, place + part.len()) == part
}

/// Whether a text stands anywhere in another.
pub open spec fn occurs(text: Seq<char>, part: Seq<char>) -> bool {
    exists|place: int| 0 <= place && #[trigger] stands_at(text, place, part)
}

/// Whether characters stand at a place of others.
fn matches_at(text: &Vec<char>, place: usize, part: &Vec<char>) -> (stands: bool)
    requires
        place <= text@.len(),
    ensures
        stands == stands_at(text@, place as int, part@),
        place == 0 ==> stands == part@.is_prefix_of(text@),
{
    if text.len() - place < part.len() {
        return false;
    }
    let mut index: usize = 0;
    while index < part.len()
        invariant
            index <= part@.len(),
            place + part@.len() <= text@.len() <= usize::MAX,
            forall|i: int| 0 <= i < index ==> text@[place + i] == part@[i],
        decreases part@.len() - index,
    {
        if text[place + index] != part[index] {
            proof {
                let found = text@.subrange(place as int, place + part@.len());
                assert(found[index as int] != part@[index as int]);
            }
            return false;
        }
        index = index + 1;
    }
    proof {
        assert(text@.subrange(place as int, place + part@.len()) =~= part@);
    }
    true
}

/// Whether a text stands anywhere in another.
pub fn contains_text(text: &str, part: &str) -> (found: bool)
    ensures
        found == occurs(text@, part@),
{
    let whole = characters(text);
    let sought = characters(part);
    let mut place: usize = 0;
    while place < whole.len()
        invariant
            place <= whole@.len(),
            whole@ == text@,
            sought@ == part@,
            forall|i: int| 0 <= i < place ==> !#[trigger] stands_at(text@, i, part@),
        decreases whole@.len() - place,
    {
        if matches_at(&whole, place, &sought) {
            proof {
                assert(stands_at(text@, place as int, part@));
            }
            return true;
        }
        place = place + 1;
    }
    let last = matches_at(&whole, place, &sought);
    proof {
        if occurs(text@, part@) {
            let at = choose|at: int| 0 <= at && #[trigger] stands_at(text@, at, part@);
            assert(at >= place);
            assert(at == place);
        }
        assert(last == stands_at(text@, place as int, part@));
    }
    last
}

/// A character, many times.
pub fn repeated(character: char, times: usize) -> (text: String)
    ensures
        text@ == Seq::new(times as nat, |i: int| character),
{
    let mut text = String::new();
    let mut index: usize = 0;
    while index < times
        invariant
            index <= times,
            text@ == Seq::new(index as nat, |i: int| character),
        decreases times - index,
    {
        text.push(character);
        index = index + 1;
        proof {
            assert(text@ =~= Seq::new(index as nat, |i: int| character));
        }
    }
    text
}

/// Lexicographic order on bytes: the order in which SQLite sorts text.
pub open spec fn bytes_before(left: Seq<u8>, right: Seq<u8>) -> bool
    decreases left.len(),
{
    if right.len() == 0 {
        false
    } else if left.len() == 0 {
        true
    } else if left[0] != right[0] {
        left[0] < right[0]
    } else {
        bytes_before(left.drop_first(), right.drop_first())
    }
}

/// Text order: the lexicographic order of the UTF-8 encodings.
pub open spec fn text_before(left: Seq<char>, right: Seq<char>) -> bool {
    bytes_before(encode_utf8(left), encode_utf8(right))
}

proof fn lemma_common_prefix(left: Seq<u8>, right: Seq<u8>, length: int)
    requires
        0 <= length <= left.len(),
        length <= right.len(),
        forall|i: int| 0 <= i < length ==> left[i] == right[i],
    ensures
        bytes_before(left, right) == bytes_before(left.skip(length), right.skip(length)),
    decreases length,
{
    if length == 0 {
        assert(left.skip(0) =~= left);
        assert(right.skip(0) =~= right);
    } else {
        lemma_common_prefix(left.drop_first(), right.drop_first(), length - 1);
        assert(left.drop_first().skip(length - 1) =~= left.skip(length));
        assert(right.drop_first().skip(length - 1) =~= right.skip(length));
    }
}

/// Text order is irreflexive.
pub proof fn lemma_text_irreflexive(text: Seq<char>)
    ensures
        !text_before(text, text),
{
    lemma_bytes_irreflexive(encode_utf8(text));
}

/// Text order is transitive.
pub proof fn lemma_text_transitive(first: Seq<char>, second: Seq<char>, third: Seq<char>)
    requires
        text_before(first, second),
        text_before(second, third),
    ensures
        text_before(first, third),
{
    lemma_bytes_transitive(encode_utf8(first), encode_utf8(second), encode_utf8(third));
}

/// Of two different texts, one is before the other.
pub proof fn lemma_text_total(left: Seq<char>, right: Seq<char>)
    ensures
        text_before(left, right) || text_before(right, left) || left == right,
{
    if !text_before(left, right) && !text_before(right, left) {
        lemma_bytes_total(encode_utf8(left), encode_utf8(right));
        encode_utf8_decode_utf8(left);
        encode_utf8_decode_utf8(right);
    }
}

proof fn lemma_bytes_irreflexive(bytes: Seq<u8>)
    ensures
        !bytes_before(bytes, bytes),
    decreases bytes.len(),
{
    if bytes.len() > 0 {
        lemma_bytes_irreflexive(bytes.drop_first());
    }
}

proof fn lemma_bytes_transitive(first: Seq<u8>, second: Seq<u8>, third: Seq<u8>)
    requires
        bytes_before(first, second),
        bytes_before(second, third),
    ensures
        bytes_before(first, third),
    decreases first.len(),
{
    if first.len() > 0 && first[0] == second[0] && second[0] == third[0] {
        lemma_bytes_transitive(first.drop_first(), second.drop_first(), third.drop_first());
    }
}

proof fn lemma_bytes_total(left: Seq<u8>, right: Seq<u8>)
    requires
        !bytes_before(left, right),
        !bytes_before(right, left),
    ensures
        left == right,
    decreases left.len(),
{
    if left.len() == 0 {
        assert(left =~= right);
    } else {
        lemma_bytes_total(left.drop_first(), right.drop_first());
        assert(left =~= seq![left[0]] + left.drop_first());
        assert(right =~= seq![right[0]] + right.drop_first());
    }
}

/// Decides text order.
pub fn precedes(left: &str, right: &str) -> (before: bool)
    ensures
        before == text_before(left@, right@),
{
    let left_bytes = left.as_bytes();
    let right_bytes = right.as_bytes();
    let mut index: usize = 0;
    while index < left_bytes.len() && index < right_bytes.len() && left_bytes[index]
        == right_bytes[index]
        invariant
            index <= left_bytes@.len(),
            index <= right_bytes@.len(),
            forall|i: int| 0 <= i < index ==> left_bytes@[i] == right_bytes@[i],
        decreases left_bytes@.len() - index,
    {
        index = index + 1;
    }
    proof {
        lemma_common_prefix(left_bytes@, right_bytes@, index as int);
        let left_rest = left_bytes@.skip(index as int);
        let right_rest = right_bytes@.skip(index as int);
        assert(right_rest.len() == 0 <==> index == right_bytes@.len());
    }
    if index >= right_bytes.len() {
        false
    } else if index >= left_bytes.len() {
        true
    } else {
        left_bytes[index] < right_bytes[index]
    }
}

} // verus!
