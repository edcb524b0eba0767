//! What holds of framed output, however it arrives.

use vstd::prelude::*;
use vstd::utf8::{
    decode_first_scalar, decode_utf8, decode_utf8_split, is_char_boundary,
    is_char_boundary_iff_is_leading_byte, is_leading_byte_width_1, length_of_first_scalar,
    pop_first_scalar, valid_utf8, valid_utf8_concat, valid_utf8_split,
};

use crate::target::output::{complete_length, lines_from, lines_of, lines_taken};

verus! {

/// The border between two valid texts is a character boundary.
proof fn lemma_border(left: Seq<u8>, right: Seq<u8>)
    requires
        valid_utf8(left),
        valid_utf8(right),
    ensures
        valid_utf8(left + right),
        is_char_boundary(left + right, left.len() as int),
    decreases left.len(),
{
    valid_utf8_concat(left, right);
    if left.len() > 0 {
        let both = left + right;
        let rest = pop_first_scalar(left);
        assert(length_of_first_scalar(both) == length_of_first_scalar(left));
        assert(pop_first_scalar(both) =~= rest + right);
        lemma_border(rest, right);
    }
}

/// Valid texts decode one after the other.
proof fn lemma_decode_concat(left: Seq<u8>, right: Seq<u8>)
    requires
        valid_utf8(left),
        valid_utf8(right),
    ensures
        valid_utf8(left + right),
        decode_utf8(left + right) == decode_utf8(left) + decode_utf8(right),
{
    lemma_border(left, right);
    let both = left + right;
    decode_utf8_split(both, left.len() as int);
    assert(both.subrange(0, left.len() as int) =~= left);
    assert(both.subrange(left.len() as int, both.len() as int) =~= right);
}

/// Bytes that end with a newline decode to a text that ends with one.
proof fn lemma_decoded_newline(bytes: Seq<u8>)
    requires
        valid_utf8(bytes),
        bytes.len() > 0,
        bytes.last() == 10u8,
    ensures
        decode_utf8(bytes).len() > 0,
        decode_utf8(bytes).last() == '\n',
{
    let index = bytes.len() - 1;
    is_char_boundary_iff_is_leading_byte(bytes, index);
    assert(is_leading_byte_width_1(bytes[index]));
    decode_utf8_split(bytes, index);
    valid_utf8_split(bytes, index);
    let tail = bytes.subrange(index, bytes.len() as int);
    assert(tail =~= seq![10u8]);
    reveal_with_fuel(decode_utf8, 2);
    assert(pop_first_scalar(tail) =~= Seq::<u8>::empty());
    assert((10u8 & 0x7F) as u32 == 10u32) by (bit_vector);
    assert(decode_first_scalar(tail) == 10u32);
    assert(decode_utf8(tail) =~= seq!['\n']);
}

/// The lines of a text that ends with a newline and of what follows it are the lines of both.
proof fn lemma_lines_concat(first: Seq<char>, second: Seq<char>, current: Seq<char>)
    requires
        first.len() > 0,
        first.last() == '\n',
    ensures
        lines_from(first + second, current) == lines_from(first, current) + lines_of(second),
    decreases first.len(),
{
    let both = first + second;
    assert(both[0] == first[0]);
    assert(both.drop_first() =~= first.drop_first() + second);
    let rest = first.drop_first();
    if first[0] == '\n' {
        if rest.len() == 0 {
            assert(rest + second =~= second);
            assert(lines_from(rest, Seq::empty()) =~= Seq::<Seq<char>>::empty());
            assert(lines_from(both, current) =~= lines_from(first, current) + lines_of(second));
        } else {
            lemma_lines_concat(rest, second, Seq::empty());
            assert(lines_from(both, current) =~= lines_from(first, current) + lines_of(second));
        }
    } else {
        assert(rest.len() > 0);
        lemma_lines_concat(rest, second, current.push(first[0]));
    }
}

/// Where the last newline of more output is.
proof fn lemma_complete_concat(first: Seq<u8>, second: Seq<u8>)
    ensures
        0 <= complete_length(first) <= first.len(),
        complete_length(first) > 0 ==> first[complete_length(first) - 1] == 10u8,
        complete_length(first + second) == complete_length(first) + complete_length(
            first.skip(complete_length(first)) + second,
        ),
    decreases first.len() + second.len(),
{
    if second.len() > 0 {
        let both = first + second;
        assert(both.drop_last() =~= first + second.drop_last());
        assert(both.last() == second.last());
        lemma_complete_concat(first, second.drop_last());
        let rest = first.skip(complete_length(first)) + second;
        assert(rest.drop_last() =~= first.skip(complete_length(first)) + second.drop_last());
        assert(rest.last() == second.last());
    } else {
        assert(first + second =~= first);
        if first.len() > 0 && first.last() != 10u8 {
            let shorter = first.drop_last();
            lemma_complete_concat(shorter, second);
            assert(shorter + second =~= shorter);
            let length = complete_length(first);
            let rest = first.skip(length) + second;
            assert(rest.drop_last() =~= shorter.skip(length) + second);
            assert(rest.last() == first.last());
        } else {
            assert(first.skip(complete_length(first)) + second =~= Seq::<u8>::empty());
        }
    }
}

/// How the output arrives does not matter: the lines taken from a first part, and then from what it
/// left behind with a second part, are the lines of both parts taken at once; and the same is left
/// behind.
pub proof fn framing_does_not_depend_on_arrival(first: Seq<u8>, second: Seq<u8>)
    requires
        lines_taken(first) is Ok,
        lines_taken(first.skip(complete_length(first)) + second) is Ok,
    ensures
        ({
            let rest = first.skip(complete_length(first)) + second;
            let both = first + second;
            &&& lines_taken(both) == Ok::<_, Seq<char>>(
                lines_taken(first)->Ok_0 + lines_taken(rest)->Ok_0,
            )
            &&& both.skip(complete_length(both)) == rest.skip(complete_length(rest))
        }),
{
    lemma_complete_concat(first, second);
    let left_length = complete_length(first);
    let rest = first.skip(left_length) + second;
    lemma_complete_concat(rest, Seq::empty());
    let both = first + second;
    let left = first.take(left_length);
    let right = rest.take(complete_length(rest));
    let whole = both.take(complete_length(both));
    assert(whole =~= left + right);
    assert(both.skip(complete_length(both)) =~= rest.skip(complete_length(rest)));
    if left.len() == 0 {
        assert(whole =~= right);
        assert(Seq::<Seq<char>>::empty() + lines_taken(rest)->Ok_0 =~= lines_taken(rest)->Ok_0);
    } else if right.len() == 0 {
        assert(whole =~= left);
        assert(lines_taken(first)->Ok_0 + Seq::<Seq<char>>::empty() =~= lines_taken(first)->Ok_0);
    } else {
        lemma_decode_concat(left, right);
        assert(left.last() == first[left_length - 1]);
        lemma_decoded_newline(left);
        lemma_lines_concat(decode_utf8(left), decode_utf8(right), Seq::empty());
    }
}

} // verus!
