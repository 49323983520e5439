//! 16-bit Universal Coded Character Set (UCS-2) string.

use std::cmp::Ordering;
use std::collections::HashMap;

use vstd::prelude::*;

use crate::elements::{
    compare_elements, elements_before_zero, elements_equal, law_compare_antisymmetric,
    law_compare_zero_iff_equal, lexicographic_compare, encode_str_utf16, encode_utf16, prefix_before, push_utf16_units, read_u16_values,
    reads_whole_values, u16_values, utf16_units,
};
use crate::text::{char_from_u32, is_scalar_value, lower_hex, push_char, push_lower_hex};

verus! {

broadcast use vstd::std_specs::hash::group_hash_axioms;

/// A value after case folding: its mapped value when `mappings` holds one, the value
/// itself otherwise.
pub open spec fn fold_value<K>(mappings: Map<K, K>, value: K) -> K {
    if mappings.contains_key(value) {
        mappings[value]
    } else {
        value
    }
}

/// UCS-2 elements of a character sequence with case folding applied to the characters
/// of the Basic Multilingual Plane; other characters become a surrogate pair.
pub open spec fn case_folded_ucs2(chars: Seq<char>, mappings: Map<u16, u16>) -> Seq<u16>
    decreases chars.len(),
{
    if chars.len() == 0 {
        Seq::empty()
    } else {
        case_folded_ucs2(chars.drop_last(), mappings) + (if (chars.last() as u32) > 0xffff {
            utf16_units(chars.last() as u32)
        } else {
            seq![fold_value(mappings, (chars.last() as u32) as u16)]
        })
    }
}

/// The ordering that a comparison sign stands for: negative for less, positive for
/// greater, zero for equal.
pub open spec fn ordering_of_sign(sign: int) -> Ordering {
    if sign < 0 {
        Ordering::Less
    } else if sign > 0 {
        Ordering::Greater
    } else {
        Ordering::Equal
    }
}

/// Comparing two strings gives `Equal` exactly when they hold the same elements, and
/// swapping them turns `Less` into `Greater`.
pub proof fn law_compare_ordering(first: Seq<u16>, second: Seq<u16>)
    ensures
        (ordering_of_sign(lexicographic_compare(first, second)) == Ordering::Equal) == (first
            == second),
        (ordering_of_sign(lexicographic_compare(first, second)) == Ordering::Less) == (
        ordering_of_sign(lexicographic_compare(second, first)) == Ordering::Greater),
{
    law_compare_zero_iff_equal(first, second);
    law_compare_antisymmetric(first, second);
}

/// Text form of a UCS-2 element: its character, with a backslash doubled, or `\{xxxx}`
/// with the element in lower case hexadecimal when it is a surrogate.
pub open spec fn ucs2_display_element(element: u16) -> Seq<char> {
    if is_scalar_value(element as u32) {
        if element == 0x5c {
            seq!['\\', '\\']
        } else {
            seq![element as char]
        }
    } else {
        seq!['\\', '{'] + lower_hex(element as nat, 4) + seq!['}']
    }
}

/// Text form of UCS-2 elements.
pub open spec fn ucs2_display(elements: Seq<u16>) -> Seq<char>
    decreases elements.len(),
{
    if elements.len() == 0 {
        Seq::empty()
    } else {
        ucs2_display(elements.drop_last()) + ucs2_display_element(elements.last())
    }
}

/// 16-bit Universal Coded Character Set (UCS-2) string.
#[derive(Clone, Debug, Eq, Hash, PartialOrd, Ord)]
pub struct Ucs2String {
    /// Elements.
    pub elements: Vec<u16>,
}

impl View for Ucs2String {
    type V = Seq<u16>;

    open spec fn view(&self) -> Seq<u16> {
        self.elements@
    }
}

impl Ucs2String {
    /// Creates a new UCS-2 string.
    pub fn new() -> (string: Self)
        ensures
            string@ == Seq::<u16>::empty(),
    {
        Self { elements: Vec::new() }
    }

    /// Creates a new UCS-2 string with case folding applied.
    pub fn new_with_case_folding(&self, mappings: &HashMap<u16, u16>) -> (string: Self)
        ensures
            string@ == self@.map_values(|element: u16| fold_value(mappings@, element)),
    {
        let number_of_elements: usize = self.elements.len();
        let mut elements: Vec<u16> = Vec::new();
        let mut element_index: usize = 0;

        while element_index < number_of_elements
            invariant
                number_of_elements == self@.len(),
                element_index <= number_of_elements,
                elements@ == self@.take(element_index as int).map_values(
                    |element: u16| fold_value(mappings@, element),
                ),
            decreases number_of_elements - element_index,
        {
            let element: u16 = self.elements[element_index];
            let folded_element: u16 = match mappings.get(&element) {
                Some(value) => *value,
                None => element,
            };
            elements.push(folded_element);
            element_index += 1;
            assert(elements@ =~= self@.take(element_index as int).map_values(
                |element: u16| fold_value(mappings@, element),
            ));
        }
        assert(self@.take(number_of_elements as int) =~= self@);
        Self { elements }
    }

    /// Retrieves the code points of the elements, one per element.
    pub fn decode(&self) -> (code_points: Vec<u32>)
        ensures
            code_points@ == self@.map_values(|element: u16| element as u32),
    {
        let number_of_elements: usize = self.elements.len();
        let mut code_points: Vec<u32> = Vec::new();
        let mut element_index: usize = 0;

        while element_index < number_of_elements
            invariant
                number_of_elements == self@.len(),
                element_index <= number_of_elements,
                code_points@ == self@.take(element_index as int).map_values(
                    |element: u16| element as u32,
                ),
            decreases number_of_elements - element_index,
        {
            code_points.push(self.elements[element_index] as u32);
            element_index += 1;
            assert(code_points@ =~= self@.take(element_index as int).map_values(
                |element: u16| element as u32,
            ));
        }
        assert(self@.take(number_of_elements as int) =~= self@);
        code_points
    }

    /// Creates a new UCS-2 string from a byte sequence in big-endian, up to the first
    /// zero element.
    pub fn from_be_bytes(data: &[u8]) -> (string: Self)
        requires
            reads_whole_values(data@, true),
        ensures
            string@ == prefix_before(u16_values(data@, true), 0u16),
    {
        let mut elements: Vec<u16> = Vec::new();
        read_u16_values(&mut elements, data, true);
        assert(elements@ =~= prefix_before(u16_values(data@, true), 0u16));
        Self { elements }
    }

    /// Creates a new UCS-2 string from a byte sequence in little-endian, up to the first
    /// zero element.
    pub fn from_le_bytes(data: &[u8]) -> (string: Self)
        requires
            reads_whole_values(data@, false),
        ensures
            string@ == prefix_before(u16_values(data@, false), 0u16),
    {
        let mut elements: Vec<u16> = Vec::new();
        read_u16_values(&mut elements, data, false);
        assert(elements@ =~= prefix_before(u16_values(data@, false), 0u16));
        Self { elements }
    }

    /// Creates a new UCS-2 string from a string with case folding applied.
    pub fn from_string_with_case_folding(string: &str, mappings: &HashMap<u16, u16>) -> (ucs2_string:
        Self)
        ensures
            ucs2_string@ == case_folded_ucs2(string@, mappings@),
    {
        let number_of_characters: usize = string.unicode_len();
        let mut elements: Vec<u16> = Vec::new();
        let mut character_index: usize = 0;

        while character_index < number_of_characters
            invariant
                number_of_characters == string@.len(),
                character_index <= number_of_characters,
                elements@ == case_folded_ucs2(string@.take(character_index as int), mappings@),
            decreases number_of_characters - character_index,
        {
            let character: char = string.get_char(character_index);
            let code_point: u32 = character as u32;

            if code_point > 0xffff {
                push_utf16_units(&mut elements, code_point);
            } else {
                let value: u16 = code_point as u16;
                let folded_code_point: u16 = match mappings.get(&value) {
                    Some(folded_code_point) => *folded_code_point,
                    None => value,
                };
                elements.push(folded_code_point);
            }
            proof {
                let next = string@.take(character_index + 1);
                assert(next.drop_last() =~= string@.take(character_index as int));
                assert(next.last() == character);
            }
            character_index += 1;
            assert(elements@ =~= case_folded_ucs2(
                string@.take(character_index as int),
                mappings@,
            ));
        }
        assert(string@.take(number_of_characters as int) =~= string@);
        Self { elements }
    }

    /// Formats the UCS-2 string as text: each element as its character, a backslash
    /// doubled, and a surrogate as `\{xxxx}`.
    pub fn to_string(&self) -> (string: String)
        ensures
            string@ == ucs2_display(self@),
    {
        let mut string: String = String::new();
        let number_of_elements: usize = self.elements.len();
        let mut element_index: usize = 0;

        while element_index < number_of_elements
            invariant
                number_of_elements == self@.len(),
                element_index <= number_of_elements,
                string@ == ucs2_display(self@.take(element_index as int)),
            decreases number_of_elements - element_index,
        {
            let element: u16 = self.elements[element_index];
            match char_from_u32(element as u32) {
                Some(character) => {
                    if character == '\\' {
                        push_char(&mut string, '\\');
                        push_char(&mut string, '\\');
                    } else {
                        push_char(&mut string, character);
                    }
                },
                None => {
                    push_char(&mut string, '\\');
                    push_char(&mut string, '{');
                    push_lower_hex(&mut string, element as u64, 4);
                    push_char(&mut string, '}');
                },
            }
            proof {
                let next = self@.take(element_index + 1);
                assert(next.drop_last() =~= self@.take(element_index as int));
                assert(next.last() == element);
            }
            element_index += 1;
            assert(string@ =~= ucs2_display(self@.take(element_index as int)));
        }
        assert(self@.take(number_of_elements as int) =~= self@);
        string
    }

    /// Determines if the UCS-2 string is empty.
    pub fn is_empty(&self) -> (empty: bool)
        ensures
            empty == (self@.len() == 0),
    {
        self.elements.is_empty()
    }

    /// Retrieves the length (or size) of the UCS-2 string.
    pub fn len(&self) -> (length: usize)
        ensures
            length == self@.len(),
    {
        self.elements.len()
    }

    /// Reads a UCS-2 string from a buffer in little-endian, appending the elements up to
    /// the first zero element.
    pub fn read_data_le(&mut self, data: &[u8])
        requires
            reads_whole_values(data@, false),
        ensures
            final(self)@ == old(self)@ + prefix_before(u16_values(data@, false), 0u16),
    {
        read_u16_values(&mut self.elements, data, false);
    }

    /// Compares two strings: a string orders before another when it holds the smaller
    /// element at the first position where they differ, or when it is a proper prefix
    /// of the other.
    pub fn compare(&self, other: &Self) -> (ordering: Ordering)
        ensures
            ordering == ordering_of_sign(lexicographic_compare(self@, other@)),
    {
        let sign: i8 = compare_elements(self.elements.as_slice(), other.elements.as_slice());
        if sign < 0 {
            Ordering::Less
        } else if sign > 0 {
            Ordering::Greater
        } else {
            Ordering::Equal
        }
    }
}

impl PartialEq for Ucs2String {
    /// Determines if two UCS-2 strings hold the same elements.
    fn eq(&self, other: &Self) -> (equal: bool) {
        elements_equal(self.elements.as_slice(), other.elements.as_slice())
    }
}

impl vstd::std_specs::cmp::PartialEqSpecImpl for Ucs2String {
    open spec fn obeys_eq_spec() -> bool {
        true
    }

    open spec fn eq_spec(&self, other: &Self) -> bool {
        self@ == other@
    }
}

impl PartialEq<&[u16]> for Ucs2String {
    /// Determines if a UCS-2 string holds the elements of a slice.
    fn eq(&self, slice: &&[u16]) -> (equal: bool) {
        elements_equal(self.elements.as_slice(), *slice)
    }
}

impl vstd::std_specs::cmp::PartialEqSpecImpl<&[u16]> for Ucs2String {
    open spec fn obeys_eq_spec() -> bool {
        true
    }

    open spec fn eq_spec(&self, slice: &&[u16]) -> bool {
        self@ == slice@
    }
}

impl PartialEq<str> for Ucs2String {
    /// Determines if a UCS-2 string holds the UTF-16 encoding of a string.
    fn eq(&self, string: &str) -> (equal: bool) {
        let encoded: Vec<u16> = encode_str_utf16(string);
        elements_equal(self.elements.as_slice(), encoded.as_slice())
    }
}

impl vstd::std_specs::cmp::PartialEqSpecImpl<str> for Ucs2String {
    open spec fn obeys_eq_spec() -> bool {
        true
    }

    open spec fn eq_spec(&self, string: &str) -> bool {
        self@ == encode_utf16(string@)
    }
}

impl PartialEq<&str> for Ucs2String {
    /// Determines if a UCS-2 string holds the UTF-16 encoding of a string.
    fn eq(&self, string: &&str) -> (equal: bool) {
        let encoded: Vec<u16> = encode_str_utf16(*string);
        elements_equal(self.elements.as_slice(), encoded.as_slice())
    }
}

impl vstd::std_specs::cmp::PartialEqSpecImpl<&str> for Ucs2String {
    open spec fn obeys_eq_spec() -> bool {
        true
    }

    open spec fn eq_spec(&self, string: &&str) -> bool {
        self@ == encode_utf16(string@)
    }
}

impl From<&[u16]> for Ucs2String {
    /// Converts a slice into a UCS-2 string of its elements up to the first zero element.
    fn from(slice: &[u16]) -> (string: Self)
        ensures
            string@ == prefix_before(slice@, 0u16),
    {
        Self { elements: elements_before_zero(slice) }
    }
}

impl vstd::std_specs::convert::FromSpecImpl<&[u16]> for Ucs2String {
    open spec fn obeys_from_spec() -> bool {
        false
    }

    open spec fn from_spec(slice: &[u16]) -> Self {
        choose|string: Self| string@ == prefix_before(slice@, 0u16)
    }
}

impl From<&str> for Ucs2String {
    /// Converts a string into a UCS-2 string of its UTF-16 encoding.
    fn from(string: &str) -> (ucs2_string: Self)
        ensures
            ucs2_string@ == encode_utf16(string@),
    {
        Self { elements: encode_str_utf16(string) }
    }
}

impl vstd::std_specs::convert::FromSpecImpl<&str> for Ucs2String {
    open spec fn obeys_from_spec() -> bool {
        false
    }

    open spec fn from_spec(string: &str) -> Self {
        choose|ucs2_string: Self| ucs2_string@ == encode_utf16(string@)
    }
}

impl From<&String> for Ucs2String {
    /// Converts a string into a UCS-2 string of its UTF-16 encoding.
    fn from(string: &String) -> (ucs2_string: Self)
        ensures
            ucs2_string@ == encode_utf16(string@),
    {
        Self { elements: encode_str_utf16(string.as_str()) }
    }
}

impl vstd::std_specs::convert::FromSpecImpl<&String> for Ucs2String {
    open spec fn obeys_from_spec() -> bool {
        false
    }

    open spec fn from_spec(string: &String) -> Self {
        choose|ucs2_string: Self| ucs2_string@ == encode_utf16(string@)
    }
}

/// Case folding text with no mappings gives its plain UTF-16 encoding; where every
/// character lies in the Basic Multilingual Plane, case folding text is encoding it and then
/// folding each element.
pub proof fn law_case_folded_is_folded_encoding(chars: Seq<char>, mappings: Map<u16, u16>)
    ensures
        case_folded_ucs2(chars, Map::<u16, u16>::empty()) == encode_utf16(chars),
        (forall|i: int| 0 <= i < chars.len() ==> (#[trigger] chars[i] as u32) <= 0xffff)
            ==> case_folded_ucs2(chars, mappings) == encode_utf16(chars).map_values(
            |element: u16| fold_value(mappings, element),
        ),
    decreases chars.len(),
{
    if chars.len() > 0 {
        let rest: Seq<char> = chars.drop_last();
        law_case_folded_is_folded_encoding(rest, mappings);
        let last: char = chars.last();
        if forall|i: int| 0 <= i < chars.len() ==> (#[trigger] chars[i] as u32) <= 0xffff {
            assert forall|i: int| 0 <= i < rest.len() implies (#[trigger] rest[i] as u32)
                <= 0xffff by {
                assert(rest[i] == chars[i]);
            }
            assert(chars[chars.len() - 1] as u32 <= 0xffff);
            let fold = |element: u16| fold_value(mappings, element);
            assert((encode_utf16(rest) + utf16_units(last as u32)).map_values(fold)
                =~= encode_utf16(rest).map_values(fold) + utf16_units(last as u32).map_values(
                fold,
            ));
            assert(utf16_units(last as u32).map_values(fold) =~= seq![
                fold_value(mappings, (last as u32) as u16),
            ]);
        }
    }
}

} // verus!
