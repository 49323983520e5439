//! Sequences of 16-bit string elements: reading them from bytes and encoding characters.

use vstd::prelude::*;

use crate::bytes::{be2, bytes_to_u16_be, bytes_to_u16_le, le2};

verus! {

/// The 16-bit values of `data`, two bytes each, read in big-endian order when
/// `big_endian` holds and in little-endian order otherwise; a trailing odd byte
/// belongs to no value.
pub open spec fn u16_values(data: Seq<u8>, big_endian: bool) -> Seq<u16> {
    Seq::new(
        data.len() / 2,
        |i: int|
            (if big_endian {
                be2(data, 2 * i)
            } else {
                le2(data, 2 * i)
            }) as u16,
    )
}

/// The elements of `s` before the first occurrence of `terminator`, or all of `s`
/// when `terminator` does not occur.
pub open spec fn prefix_before<T>(s: Seq<T>, terminator: T) -> Seq<T>
    decreases s.len(),
{
    if s.len() == 0 {
        s
    } else if s[0] == terminator {
        Seq::empty()
    } else {
        seq![s[0]] + prefix_before(s.drop_first(), terminator)
    }
}

/// Reading `data` two bytes at a time reaches a zero value before it would have to
/// read a lone trailing byte.
pub open spec fn reads_whole_values(data: Seq<u8>, big_endian: bool) -> bool {
    data.len() % 2 == 0 || prefix_before(u16_values(data, big_endian), 0u16).len() < data.len()
        / 2
}

/// The prefix before a terminator is the part up to the first position that holds it.
pub proof fn lemma_prefix_before<T>(s: Seq<T>, terminator: T, k: int)
    requires
        0 <= k <= s.len(),
        forall|j: int| 0 <= j < k ==> s[j] != terminator,
        k == s.len() || s[k] == terminator,
    ensures
        prefix_before(s, terminator) == s.take(k),
    decreases k,
{
    if k == 0 {
        assert(s.take(0) =~= Seq::<T>::empty());
    } else {
        lemma_prefix_before(s.drop_first(), terminator, k - 1);
        assert(s.take(k) =~= seq![s[0]] + s.drop_first().take(k - 1));
    }
}

/// What is read up to a terminator is the start of the data, holds no terminator, and is
/// followed in the data by a terminator or by nothing.
pub proof fn law_read_stops_at_terminator<T>(s: Seq<T>, terminator: T)
    ensures
        prefix_before(s, terminator).len() <= s.len(),
        prefix_before(s, terminator) == s.take(prefix_before(s, terminator).len() as int),
        forall|j: int|
            0 <= j < prefix_before(s, terminator).len() ==> prefix_before(s, terminator)[j]
                != terminator,
        prefix_before(s, terminator).len() < s.len() ==> s[prefix_before(s, terminator).len() as int]
            == terminator,
    decreases s.len(),
{
    if s.len() > 0 && s[0] != terminator {
        law_read_stops_at_terminator(s.drop_first(), terminator);
        let p = prefix_before(s.drop_first(), terminator);
        assert(prefix_before(s, terminator) == seq![s[0]] + p);
        assert(s.take((p.len() + 1) as int) =~= seq![s[0]] + s.drop_first().take(p.len() as int));
        assert forall|j: int| 0 <= j < p.len() + 1 implies (seq![s[0]] + p)[j] != terminator by {
            if j > 0 {
                assert((seq![s[0]] + p)[j] == p[j - 1]);
            }
        }
    } else if s.len() > 0 {
        assert(s.take(0) =~= Seq::<T>::empty());
    }
}

/// The prefix before a terminator of a sequence with no terminator is the whole sequence.
pub proof fn lemma_prefix_before_absent<T>(s: Seq<T>, terminator: T)
    requires
        forall|j: int| 0 <= j < s.len() ==> s[j] != terminator,
    ensures
        prefix_before(s, terminator) == s,
{
    lemma_prefix_before(s, terminator, s.len() as int);
    assert(s.take(s.len() as int) =~= s);
}

/// Appends to `elements` the 16-bit values of `data` before the first zero value.
pub fn read_u16_values(elements: &mut Vec<u16>, data: &[u8], big_endian: bool)
    requires
        reads_whole_values(data@, big_endian),
    ensures
        final(elements)@ == old(elements)@ + prefix_before(u16_values(data@, big_endian), 0u16),
{
    let ghost values: Seq<u16> = u16_values(data@, big_endian);
    let ghost initial: Seq<u16> = elements@;
    let data_size: usize = data.len();
    let number_of_values: usize = data_size / 2;
    let mut value_index: usize = 0;

    while value_index < number_of_values
        invariant
            number_of_values == values.len(),
            data_size == data@.len(),
            value_index <= number_of_values,
            values == u16_values(data@, big_endian),
            reads_whole_values(data@, big_endian),
            elements@ == initial + values.take(value_index as int),
            initial == old(elements)@,
            forall|j: int| 0 <= j < value_index ==> values[j] != 0u16,
        decreases number_of_values - value_index,
    {
        let data_offset: usize = 2 * value_index;
        let value_16bit: u16 = if big_endian {
            bytes_to_u16_be(data, data_offset)
        } else {
            bytes_to_u16_le(data, data_offset)
        };
        assert(value_16bit == values[value_index as int]);
        if value_16bit == 0 {
            proof {
                lemma_prefix_before(values, 0u16, value_index as int);
            }
            return;
        }
        elements.push(value_16bit);
        value_index += 1;
        assert(values.take(value_index as int) =~= values.take(value_index - 1).push(value_16bit));
    }
    proof {
        lemma_prefix_before_absent(values, 0u16);
        assert(values.take(value_index as int) =~= values);
    }
}

/// UTF-16 code units of a code point: a surrogate pair above the Basic Multilingual
/// Plane, the code point itself otherwise. Above the Unicode range the high unit is
/// formed from the low 16 bits of the shifted value.
pub open spec fn utf16_units(code_point: u32) -> Seq<u16> {
    if code_point > 0xffff {
        seq![
            (0xd800 + ((code_point - 0x10000) / 0x400) % 0x10000) as u16,
            (0xdc00 + (code_point - 0x10000) % 0x400) as u16,
        ]
    } else {
        seq![code_point as u16]
    }
}

/// The code units of a code point stay within 16 bits: always so for a Unicode code
/// point, for larger values only when the high unit does.
pub open spec fn utf16_units_fit(code_point: u32) -> bool {
    code_point <= 0xffff || 0xd800 + ((code_point - 0x10000) / 0x400) % 0x10000 <= 0xffff
}

/// UTF-16 encoding of a character sequence.
pub open spec fn encode_utf16(chars: Seq<char>) -> Seq<u16>
    decreases chars.len(),
{
    if chars.len() == 0 {
        Seq::empty()
    } else {
        encode_utf16(chars.drop_last()) + utf16_units(chars.last() as u32)
    }
}

/// Appends the UTF-16 code units of a code point.
pub fn push_utf16_units(elements: &mut Vec<u16>, code_point: u32)
    requires
        utf16_units_fit(code_point),
    ensures
        final(elements)@ == old(elements)@ + utf16_units(code_point),
{
    if code_point > 0xffff {
        let offset: u32 = code_point - 0x10000;
        let high: u16 = ((offset / 0x400) % 0x10000) as u16;
        elements.push(0xd800 + high);
        elements.push((0xdc00 + offset % 0x400) as u16);
        assert(final(elements)@ =~= old(elements)@ + utf16_units(code_point));
    } else {
        elements.push(code_point as u16);
        assert(final(elements)@ =~= old(elements)@ + utf16_units(code_point));
    }
}

/// UTF-16 encoding of a string.
pub fn encode_str_utf16(string: &str) -> (elements: Vec<u16>)
    ensures
        elements@ == encode_utf16(string@),
{
    let number_of_characters: usize = string.unicode_len();
    let mut elements: Vec<u16> = Vec::new();
    let mut character_index: usize = 0;

    while character_index < number_of_characters
        invariant
            number_of_characters == string@.len(),
            character_index <= number_of_characters,
            elements@ == encode_utf16(string@.take(character_index as int)),
        decreases number_of_characters - character_index,
    {
        let character: char = string.get_char(character_index);
        push_utf16_units(&mut elements, character as u32);
        proof {
            let next = string@.take(character_index + 1);
            assert(next.drop_last() =~= string@.take(character_index as int));
            assert(next.last() == character);
        }
        character_index += 1;
    }
    assert(string@.take(number_of_characters as int) =~= string@);
    elements
}

/// Determines if two element sequences are equal.
pub fn elements_equal(first: &[u16], second: &[u16]) -> (equal: bool)
    ensures
        equal == (first@ == second@),
{
    if first.len() != second.len() {
        return false;
    }
    let mut index: usize = 0;
    while index < first.len()
        invariant
            first@.len() == second@.len(),
            index <= first@.len(),
            forall|j: int| 0 <= j < index ==> first@[j] == second@[j],
        decreases first@.len() - index,
    {
        if first[index] != second[index] {
            return false;
        }
        index += 1;
    }
    assert(first@ =~= second@);
    true
}

/// Lexicographic comparison of two element sequences: -1 when the first orders before
/// the second, 1 when after, 0 when they are equal. The smaller element at the first
/// position where they differ orders first; a proper prefix orders first.
pub open spec fn lexicographic_compare(first: Seq<u16>, second: Seq<u16>) -> int
    decreases first.len(),
{
    if first.len() == 0 {
        if second.len() == 0 {
            0
        } else {
            -1
        }
    } else if second.len() == 0 {
        1
    } else if first[0] < second[0] {
        -1
    } else if first[0] > second[0] {
        1
    } else {
        lexicographic_compare(first.drop_first(), second.drop_first())
    }
}

/// Comparing a sequence with another gives 0 exactly when they are equal, and the
/// result is always one of -1, 0 and 1.
pub proof fn law_compare_zero_iff_equal(first: Seq<u16>, second: Seq<u16>)
    ensures
        (lexicographic_compare(first, second) == 0) == (first == second),
        lexicographic_compare(first, second) == -1 || lexicographic_compare(first, second) == 0
            || lexicographic_compare(first, second) == 1,
    decreases first.len(),
{
    if first.len() > 0 && second.len() > 0 && first[0] == second[0] {
        law_compare_zero_iff_equal(first.drop_first(), second.drop_first());
        if first.drop_first() == second.drop_first() {
            assert(first =~= seq![first[0]] + first.drop_first());
            assert(second =~= seq![second[0]] + second.drop_first());
        }
    } else if first.len() > 0 && second.len() > 0 {
        assert(first[0] != second[0]);
    } else if first.len() == 0 && second.len() == 0 {
        assert(first =~= second);
    }
}

/// Swapping the two sequences negates the comparison.
pub proof fn law_compare_antisymmetric(first: Seq<u16>, second: Seq<u16>)
    ensures
        lexicographic_compare(second, first) == -lexicographic_compare(first, second),
    decreases first.len(),
{
    if first.len() > 0 && second.len() > 0 && first[0] == second[0] {
        law_compare_antisymmetric(first.drop_first(), second.drop_first());
    }
}

/// A sequence that orders before a second, which orders before a third, orders before
/// the third.
pub proof fn law_compare_transitive(first: Seq<u16>, second: Seq<u16>, third: Seq<u16>)
    requires
        lexicographic_compare(first, second) < 0,
        lexicographic_compare(second, third) < 0,
    ensures
        lexicographic_compare(first, third) < 0,
    decreases first.len(),
{
    if first.len() > 0 && second.len() > 0 && third.len() > 0 && first[0] == second[0]
        && second[0] == third[0] {
        law_compare_transitive(first.drop_first(), second.drop_first(), third.drop_first());
    }
}

/// Two sequences that agree up to a position and differ there are ordered by their elements
/// at that position alone, whatever their lengths.
pub proof fn law_compare_first_difference(first: Seq<u16>, second: Seq<u16>, index: int)
    requires
        0 <= index < first.len(),
        index < second.len(),
        forall|position: int| 0 <= position < index ==> first[position] == second[position],
        first[index] != second[index],
    ensures
        first[index] < second[index] ==> lexicographic_compare(first, second) == -1,
        first[index] > second[index] ==> lexicographic_compare(first, second) == 1,
    decreases index,
{
    if index > 0 {
        assert(first[0] == second[0]);
        let first_rest: Seq<u16> = first.drop_first();
        let second_rest: Seq<u16> = second.drop_first();
        assert forall|position: int| 0 <= position < index - 1 implies first_rest[position]
            == second_rest[position] by {
            assert(first[position + 1] == second[position + 1]);
        }
        law_compare_first_difference(first_rest, second_rest, index - 1);
    }
}

/// A proper prefix of a sequence orders before it, and the sequence after the prefix.
pub proof fn law_compare_proper_prefix(prefix: Seq<u16>, sequence: Seq<u16>)
    requires
        prefix.len() < sequence.len(),
        forall|position: int| 0 <= position < prefix.len() ==> prefix[position] == sequence[position],
    ensures
        lexicographic_compare(prefix, sequence) == -1,
        lexicographic_compare(sequence, prefix) == 1,
    decreases prefix.len(),
{
    if prefix.len() > 0 {
        assert(prefix[0] == sequence[0]);
        let prefix_rest: Seq<u16> = prefix.drop_first();
        let sequence_rest: Seq<u16> = sequence.drop_first();
        assert forall|position: int| 0 <= position < prefix_rest.len() implies prefix_rest[position]
            == sequence_rest[position] by {
            assert(prefix[position + 1] == sequence[position + 1]);
        }
        law_compare_proper_prefix(prefix_rest, sequence_rest);
    }
}

/// Compares two element sequences lexicographically.
pub fn compare_elements(first: &[u16], second: &[u16]) -> (sign: i8)
    ensures
        sign == lexicographic_compare(first@, second@),
{
    let first_size: usize = first.len();
    let second_size: usize = second.len();

    let mut element_index: usize = 0;
    assert(first@.skip(0) =~= first@);
    assert(second@.skip(0) =~= second@);
    while element_index < first_size && element_index < second_size
        invariant
            first_size == first@.len(),
            second_size == second@.len(),
            element_index <= first_size,
            element_index <= second_size,
            lexicographic_compare(first@, second@) == lexicographic_compare(
                first@.skip(element_index as int),
                second@.skip(element_index as int),
            ),
        decreases first_size - element_index,
    {
        let first_element: u16 = first[element_index];
        let second_element: u16 = second[element_index];

        if first_element < second_element {
            return -1;
        }
        if first_element > second_element {
            return 1;
        }
        assert(first@.skip(element_index as int).drop_first() =~= first@.skip(element_index + 1));
        assert(second@.skip(element_index as int).drop_first() =~= second@.skip(
            element_index + 1,
        ));
        element_index += 1;
    }
    if element_index < second_size {
        return -1;
    }
    if element_index < first_size {
        return 1;
    }
    0
}

/// Copies the elements of a slice up to the first zero element.
pub fn elements_before_zero(slice: &[u16]) -> (elements: Vec<u16>)
    ensures
        elements@ == prefix_before(slice@, 0u16),
{
    let mut elements: Vec<u16> = Vec::new();
    let mut index: usize = 0;
    while index < slice.len()
        invariant
            index <= slice@.len(),
            elements@ == slice@.take(index as int),
            forall|j: int| 0 <= j < index ==> slice@[j] != 0u16,
        decreases slice@.len() - index,
    {
        if slice[index] == 0 {
            proof {
                lemma_prefix_before(slice@, 0u16, index as int);
            }
            return elements;
        }
        elements.push(slice[index]);
        index += 1;
        assert(elements@ =~= slice@.take(index as int));
    }
    proof {
        lemma_prefix_before_absent(slice@, 0u16);
    }
    assert(slice@.take(index as int) =~= slice@);
    elements
}

} // verus!
