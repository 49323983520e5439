//! 16-bit Unicode Transformation Format (UTF-16) string.

use std::collections::HashMap;

use vstd::prelude::*;

use crate::elements::{
    elements_before_zero, elements_equal, encode_str_utf16, encode_utf16, prefix_before,
    push_utf16_units, read_u16_values, reads_whole_values, u16_values, utf16_units,
    utf16_units_fit,
};
use crate::ucs2_string::fold_value;
use crate::text::{char_from_u32, is_scalar_value, push_char};

verus! {

broadcast use vstd::std_specs::hash::group_hash_axioms;

/// Mappings of a sequence of code point pairs, where a later pair replaces the
/// mapping of an earlier one for the same code point.
pub open spec fn mappings_of_pairs(pairs: Seq<(u32, u32)>) -> Map<u32, u32>
    decreases pairs.len(),
{
    if pairs.len() == 0 {
        Map::empty()
    } else {
        mappings_of_pairs(pairs.drop_last()).insert(pairs.last().0, pairs.last().1)
    }
}

/// What a lookup gives back of an addition: after a code point is mapped, it is looked up
/// as its new mapping, and every other code point as before.
pub proof fn law_mapping_after_add(
    mappings: Map<u32, u32>,
    code_point: u32,
    mapped_code_point: u32,
    other: u32,
)
    ensures
        fold_value(mappings.insert(code_point, mapped_code_point), code_point) == mapped_code_point,
        other != code_point ==> fold_value(mappings.insert(code_point, mapped_code_point), other)
            == fold_value(mappings, other),
{
}

/// UTF-16 character mappings.
pub struct Utf16CharacterMappings {
    /// Mappings.
    mappings: HashMap<u32, u32>,
}

impl View for Utf16CharacterMappings {
    type V = Map<u32, u32>;

    closed spec fn view(&self) -> Map<u32, u32> {
        self.mappings@
    }
}

impl Utf16CharacterMappings {
    /// Creates a new UTF-16 character mappings, which holds no mappings.
    pub fn new(mappings: &[(u32, u32)]) -> (character_mappings: Self)
        ensures
            character_mappings@ == Map::<u32, u32>::empty(),
            character_mappings@.dom().finite(),
    {
        Self { mappings: HashMap::new() }
    }

    /// Adds a mapping.
    pub fn add(&mut self, code_point: u32, mapped_code_point: u32)
        ensures
            final(self)@ == old(self)@.insert(code_point, mapped_code_point),
            final(self)@.dom().finite(),
            final(self)@.len() == old(self)@.len() + (if old(self)@.dom().contains(code_point) {
                0int
            } else {
                1int
            }),
    {
        proof {
            broadcast use vstd::std_specs::hash::axiom_hashmap_view_finite_dom;
            assert(self.mappings@.dom().finite());
        }
        self.mappings.insert(code_point, mapped_code_point);
        proof {
            broadcast use vstd::std_specs::hash::axiom_hashmap_view_finite_dom;
            assert(self.mappings@.dom().finite());
            if old(self)@.dom().contains(code_point) {
                assert(self.mappings@.dom() =~= old(self)@.dom());
            } else {
                assert(self.mappings@.dom() =~= old(self)@.dom().insert(code_point));
            }
        }
    }

    /// Retrieves a mapped code point: the mapping of the code point when there is one,
    /// the code point itself otherwise.
    pub fn get_code_point(&self, code_point: &u32) -> (mapped_code_point: u32)
        ensures
            mapped_code_point == fold_value(self@, *code_point),
    {
        match self.mappings.get(code_point) {
            Some(mapped_code_point) => *mapped_code_point,
            None => *code_point,
        }
    }

    /// Retrieves the number of mappings.
    pub fn len(&self) -> (number_of_mappings: usize)
        ensures
            number_of_mappings == self@.len(),
    {
        self.mappings.len()
    }
}

impl From<&[(u32, u32)]> for Utf16CharacterMappings {
    /// Converts a slice of code point pairs into mappings, a later pair replacing an
    /// earlier one for the same code point.
    fn from(pairs: &[(u32, u32)]) -> (character_mappings: Self)
        ensures
            character_mappings@ == mappings_of_pairs(pairs@),
            character_mappings@.dom().finite(),
    {
        let mut mappings: HashMap<u32, u32> = HashMap::new();
        let mut pair_index: usize = 0;

        while pair_index < pairs.len()
            invariant
                pair_index <= pairs@.len(),
                mappings@ == mappings_of_pairs(pairs@.take(pair_index as int)),
            decreases pairs@.len() - pair_index,
        {
            let (code_point, mapped_code_point) = pairs[pair_index];
            mappings.insert(code_point, mapped_code_point);
            proof {
                let next = pairs@.take(pair_index + 1);
                assert(next.drop_last() =~= pairs@.take(pair_index as int));
            }
            pair_index += 1;
        }
        assert(pairs@.take(pair_index as int) =~= pairs@);
        proof {
            broadcast use vstd::std_specs::hash::axiom_hashmap_view_finite_dom;
            assert(mappings@.dom().finite());
        }
        Self { mappings }
    }
}

impl vstd::std_specs::convert::FromSpecImpl<&[(u32, u32)]> for Utf16CharacterMappings {
    open spec fn obeys_from_spec() -> bool {
        false
    }

    open spec fn from_spec(pairs: &[(u32, u32)]) -> Self {
        choose|character_mappings: Self| character_mappings@ == mappings_of_pairs(pairs@)
    }
}

/// Reason why a UTF-16 element sequence does not decode.
#[derive(Clone, Copy, Debug, PartialEq, Eq, Structural)]
pub enum Utf16Error {
    /// A high surrogate is the last element.
    MissingLowSurrogate,
    /// A high surrogate is followed by an element that is no low surrogate.
    LowSurrogateOutOfBounds,
}

/// Whether a value is a high (leading) surrogate.
pub open spec fn is_high_surrogate(value: u16) -> bool {
    0xd800 <= value <= 0xdbff
}

/// Whether a value is a low (trailing) surrogate.
pub open spec fn is_low_surrogate(value: u16) -> bool {
    0xdc00 <= value <= 0xdfff
}

/// Code point of a surrogate pair.
pub open spec fn surrogate_pair_code_point(high: u16, low: u16) -> u32 {
    (0x10000 + (high - 0xd800) * 0x400 + (low - 0xdc00)) as u32
}

/// Decoding of UTF-16 elements into code points: a high surrogate followed by a low
/// surrogate forms one code point, any other element is a code point by itself, and
/// the first high surrogate without a low surrogate after it is an error.
pub open spec fn decode_utf16(elements: Seq<u16>) -> Result<Seq<u32>, Utf16Error>
    decreases elements.len(),
{
    if elements.len() == 0 {
        Ok(Seq::empty())
    } else if is_high_surrogate(elements[0]) {
        if elements.len() < 2 {
            Err(Utf16Error::MissingLowSurrogate)
        } else if !is_low_surrogate(elements[1]) {
            Err(Utf16Error::LowSurrogateOutOfBounds)
        } else {
            match decode_utf16(elements.skip(2)) {
                Ok(rest) => Ok(seq![surrogate_pair_code_point(elements[0], elements[1])] + rest),
                Err(error) => Err(error),
            }
        }
    } else {
        match decode_utf16(elements.drop_first()) {
            Ok(rest) => Ok(seq![elements[0] as u32] + rest),
            Err(error) => Err(error),
        }
    }
}

/// UTF-16 elements of code points after mapping each with `mappings`.
pub open spec fn mapped_utf16(code_points: Seq<u32>, mappings: Map<u32, u32>) -> Seq<u16>
    decreases code_points.len(),
{
    if code_points.len() == 0 {
        Seq::empty()
    } else {
        mapped_utf16(code_points.drop_last(), mappings) + utf16_units(
            fold_value(mappings, code_points.last()),
        )
    }
}

/// Every code point keeps 16-bit code units after mapping.
pub open spec fn mapped_units_fit(code_points: Seq<u32>, mappings: Map<u32, u32>) -> bool {
    forall|i: int| 0 <= i < code_points.len() ==> utf16_units_fit(fold_value(mappings, #[trigger] code_points[i]))
}

/// The code points of a character sequence.
pub open spec fn code_points_of(chars: Seq<char>) -> Seq<u32> {
    chars.map_values(|character: char| character as u32)
}

/// Decoding a concatenation whose first part decodes on its own decodes both parts.
pub proof fn lemma_decode_utf16_append(first: Seq<u16>, second: Seq<u16>)
    requires
        decode_utf16(first) is Ok,
    ensures
        decode_utf16(first + second) == (match decode_utf16(second) {
            Ok(rest) => Ok(decode_utf16(first)->Ok_0 + rest),
            Err(error) => Err::<Seq<u32>, Utf16Error>(error),
        }),
    decreases first.len(),
{
    if first.len() == 0 {
        assert(first + second =~= second);
        if decode_utf16(second) is Ok {
            assert(decode_utf16(first)->Ok_0 + decode_utf16(second)->Ok_0 =~= decode_utf16(second)->Ok_0);
        }
    } else if is_high_surrogate(first[0]) {
        lemma_decode_utf16_append(first.skip(2), second);
        assert((first + second).skip(2) =~= first.skip(2) + second);
        if decode_utf16(second) is Ok {
            let head = seq![surrogate_pair_code_point(first[0], first[1])];
            assert(head + (decode_utf16(first.skip(2))->Ok_0 + decode_utf16(second)->Ok_0) =~= (
            head + decode_utf16(first.skip(2))->Ok_0) + decode_utf16(second)->Ok_0);
        }
    } else {
        lemma_decode_utf16_append(first.drop_first(), second);
        assert((first + second).drop_first() =~= first.drop_first() + second);
        if decode_utf16(second) is Ok {
            let head = seq![first[0] as u32];
            assert(head + (decode_utf16(first.drop_first())->Ok_0 + decode_utf16(second)->Ok_0)
                =~= (head + decode_utf16(first.drop_first())->Ok_0) + decode_utf16(second)->Ok_0);
        }
    }
}

/// The code units of a character decode to its code point.
pub proof fn lemma_decode_utf16_units(character: char)
    ensures
        decode_utf16(utf16_units(character as u32)) == Ok::<Seq<u32>, Utf16Error>(
            seq![character as u32],
        ),
{
    let code_point: u32 = character as u32;
    let units = utf16_units(code_point);
    if code_point > 0xffff {
        let offset: int = code_point - 0x10000;
        assert(offset / 0x400 < 0x400);
        assert(units[0] == 0xd800 + offset / 0x400);
        assert(units[1] == 0xdc00 + offset % 0x400);
        assert(units.skip(2) =~= Seq::<u16>::empty());
        assert(decode_utf16(units.skip(2)) == Ok::<Seq<u32>, Utf16Error>(Seq::empty()));
        assert(is_high_surrogate(units[0]) && is_low_surrogate(units[1]));
        assert(surrogate_pair_code_point(units[0], units[1]) == code_point) by {
            assert(offset == (offset / 0x400) * 0x400 + offset % 0x400);
        }
        assert(seq![surrogate_pair_code_point(units[0], units[1])] + Seq::<u32>::empty() =~= seq![
            code_point,
        ]);
    } else {
        assert(units.drop_first() =~= Seq::<u16>::empty());
        assert(decode_utf16(units.drop_first()) == Ok::<Seq<u32>, Utf16Error>(Seq::empty()));
        assert(!is_high_surrogate(units[0]));
        assert(seq![units[0] as u32] + Seq::<u32>::empty() =~= seq![code_point]);
    }
}

/// Whether a code point decodes back from its code units on its own: a Unicode scalar value,
/// or a lone low surrogate, which decoding passes through.
pub open spec fn decodes_alone(code_point: u32) -> bool {
    ||| code_point <= 0xffff && !(0xd800 <= code_point < 0xdc00)
    ||| 0x10000 <= code_point <= 0x10ffff
}

/// The code units of a code point that decodes alone decode to it.
pub proof fn lemma_decode_utf16_units_alone(code_point: u32)
    requires
        decodes_alone(code_point),
    ensures
        decode_utf16(utf16_units(code_point)) == Ok::<Seq<u32>, Utf16Error>(seq![code_point]),
{
    let units = utf16_units(code_point);
    if code_point > 0xffff {
        let offset: int = code_point - 0x10000;
        assert(offset / 0x400 < 0x400);
        assert(units[0] == 0xd800 + offset / 0x400);
        assert(units[1] == 0xdc00 + offset % 0x400);
        assert(units.skip(2) =~= Seq::<u16>::empty());
        assert(decode_utf16(units.skip(2)) == Ok::<Seq<u32>, Utf16Error>(Seq::empty()));
        assert(is_high_surrogate(units[0]) && is_low_surrogate(units[1]));
        assert(surrogate_pair_code_point(units[0], units[1]) == code_point) by {
            assert(offset == (offset / 0x400) * 0x400 + offset % 0x400);
        }
        assert(seq![surrogate_pair_code_point(units[0], units[1])] + Seq::<u32>::empty() =~= seq![
            code_point,
        ]);
    } else {
        assert(units.drop_first() =~= Seq::<u16>::empty());
        assert(decode_utf16(units.drop_first()) == Ok::<Seq<u32>, Utf16Error>(Seq::empty()));
        assert(!is_high_surrogate(units[0]));
        assert(seq![units[0] as u32] + Seq::<u32>::empty() =~= seq![code_point]);
    }
}

/// Case folding code points, where each folded code point is a Unicode scalar value or a
/// lone low surrogate, yields elements that decode to the folded code points.
pub proof fn law_decode_of_mapped_utf16(code_points: Seq<u32>, mappings: Map<u32, u32>)
    requires
        forall|i: int|
            0 <= i < code_points.len() ==> decodes_alone(
                fold_value(mappings, #[trigger] code_points[i]),
            ),
    ensures
        decode_utf16(mapped_utf16(code_points, mappings)) == Ok::<Seq<u32>, Utf16Error>(
            code_points.map_values(|code_point: u32| fold_value(mappings, code_point)),
        ),
    decreases code_points.len(),
{
    let fold = |code_point: u32| fold_value(mappings, code_point);
    if code_points.len() == 0 {
        assert(code_points.map_values(fold) =~= Seq::<u32>::empty());
    } else {
        let init: Seq<u32> = code_points.drop_last();
        assert forall|i: int| 0 <= i < init.len() implies decodes_alone(
            fold_value(mappings, #[trigger] init[i]),
        ) by {
            assert(init[i] == code_points[i]);
        }
        law_decode_of_mapped_utf16(init, mappings);
        let last: u32 = fold_value(mappings, code_points[code_points.len() - 1]);
        lemma_decode_utf16_units_alone(last);
        lemma_decode_utf16_append(mapped_utf16(init, mappings), utf16_units(last));
        assert(init.map_values(fold) + seq![last] =~= code_points.map_values(fold));
    }
}

/// Every code point that decoding yields decodes alone.
pub proof fn lemma_decoded_code_points_decode_alone(elements: Seq<u16>)
    requires
        decode_utf16(elements) is Ok,
    ensures
        forall|i: int|
            0 <= i < decode_utf16(elements)->Ok_0.len() ==> decodes_alone(
                #[trigger] decode_utf16(elements)->Ok_0[i],
            ),
    decreases elements.len(),
{
    if elements.len() > 0 {
        let code_points: Seq<u32> = decode_utf16(elements)->Ok_0;
        if is_high_surrogate(elements[0]) {
            let rest: Seq<u16> = elements.skip(2);
            lemma_decoded_code_points_decode_alone(rest);
            let first: u32 = surrogate_pair_code_point(elements[0], elements[1]);
            assert(decodes_alone(first));
            assert forall|i: int| 0 <= i < code_points.len() implies decodes_alone(
                #[trigger] code_points[i],
            ) by {
                if i > 0 {
                    assert(code_points[i] == decode_utf16(rest)->Ok_0[i - 1]);
                }
            }
        } else {
            let rest: Seq<u16> = elements.drop_first();
            lemma_decoded_code_points_decode_alone(rest);
            assert forall|i: int| 0 <= i < code_points.len() implies decodes_alone(
                #[trigger] code_points[i],
            ) by {
                if i > 0 {
                    assert(code_points[i] == decode_utf16(rest)->Ok_0[i - 1]);
                }
            }
        }
    }
}

/// Case folding elements that decode, with mappings whose every mapped code point is a
/// Unicode scalar value or a lone low surrogate, yields elements that decode to the decoded
/// code points, each mapped.
pub proof fn law_decode_of_case_folding(elements: Seq<u16>, mappings: Map<u32, u32>)
    requires
        decode_utf16(elements) is Ok,
        forall|code_point: u32| #[trigger] mappings.contains_key(code_point) ==> decodes_alone(
            mappings[code_point],
        ),
    ensures
        decode_utf16(mapped_utf16(decode_utf16(elements)->Ok_0, mappings)) == Ok::<
            Seq<u32>,
            Utf16Error,
        >(
            decode_utf16(elements)->Ok_0.map_values(
                |code_point: u32| fold_value(mappings, code_point),
            ),
        ),
{
    let code_points: Seq<u32> = decode_utf16(elements)->Ok_0;
    lemma_decoded_code_points_decode_alone(elements);
    assert forall|i: int| 0 <= i < code_points.len() implies decodes_alone(
        fold_value(mappings, #[trigger] code_points[i]),
    ) by {
        if mappings.contains_key(code_points[i]) {
        }
    }
    law_decode_of_mapped_utf16(code_points, mappings);
}

/// A UTF-16 string made from a string decodes to the code points of the string's
/// characters.
pub proof fn law_decode_utf16_of_encoding(chars: Seq<char>)
    ensures
        decode_utf16(encode_utf16(chars)) == Ok::<Seq<u32>, Utf16Error>(code_points_of(chars)),
    decreases chars.len(),
{
    if chars.len() == 0 {
        assert(code_points_of(chars) =~= Seq::<u32>::empty());
    } else {
        let init = chars.drop_last();
        law_decode_utf16_of_encoding(init);
        lemma_decode_utf16_units(chars.last());
        lemma_decode_utf16_append(encode_utf16(init), utf16_units(chars.last() as u32));
        assert(code_points_of(init) + seq![chars.last() as u32] =~= code_points_of(chars));
    }
}

/// Mapping a concatenation of code points maps each part.
pub proof fn lemma_mapped_utf16_append(first: Seq<u32>, second: Seq<u32>, mappings: Map<u32, u32>)
    ensures
        mapped_utf16(first + second, mappings) == mapped_utf16(first, mappings) + mapped_utf16(
            second,
            mappings,
        ),
    decreases second.len(),
{
    if second.len() == 0 {
        assert(first + second =~= first);
        assert(mapped_utf16(first, mappings) + Seq::<u16>::empty() =~= mapped_utf16(first, mappings));
    } else {
        lemma_mapped_utf16_append(first, second.drop_last(), mappings);
        assert((first + second).drop_last() =~= first + second.drop_last());
        assert((first + second).last() == second.last());
    }
}

/// Without mappings, case folding gives back every string that decodes: encoding the
/// decoded code points yields the original elements.
pub proof fn law_encode_of_decode_utf16(elements: Seq<u16>)
    requires
        decode_utf16(elements) is Ok,
    ensures
        mapped_utf16(decode_utf16(elements)->Ok_0, Map::empty()) == elements,
    decreases elements.len(),
{
    if elements.len() > 0 {
        let empty = Map::<u32, u32>::empty();
        if is_high_surrogate(elements[0]) {
            let rest = elements.skip(2);
            law_encode_of_decode_utf16(rest);
            let code_point = surrogate_pair_code_point(elements[0], elements[1]);
            lemma_mapped_utf16_append(seq![code_point], decode_utf16(rest)->Ok_0, empty);
            assert(seq![code_point].drop_last() =~= Seq::<u32>::empty());
            let offset: int = code_point - 0x10000;
            assert(offset == (elements[0] - 0xd800) * 0x400 + (elements[1] - 0xdc00));
            assert(offset / 0x400 == elements[0] - 0xd800 && offset % 0x400 == elements[1] - 0xdc00)
                by (nonlinear_arith)
                requires
                    offset == (elements[0] - 0xd800) * 0x400 + (elements[1] - 0xdc00),
                    0 <= elements[1] - 0xdc00 < 0x400,
                    0 <= elements[0] - 0xd800 < 0x400,
            ;
            assert(fold_value(empty, code_point) == code_point);
            assert(mapped_utf16(Seq::<u32>::empty(), empty) == Seq::<u16>::empty());
            assert(utf16_units(code_point) =~= seq![elements[0], elements[1]]);
            assert(mapped_utf16(seq![code_point], empty) =~= seq![elements[0], elements[1]]);
            assert(elements =~= seq![elements[0], elements[1]] + rest);
        } else {
            let rest = elements.drop_first();
            law_encode_of_decode_utf16(rest);
            lemma_mapped_utf16_append(seq![elements[0] as u32], decode_utf16(rest)->Ok_0, empty);
            assert(seq![elements[0] as u32].drop_last() =~= Seq::<u32>::empty());
            assert(fold_value(empty, elements[0] as u32) == elements[0] as u32);
            assert(mapped_utf16(Seq::<u32>::empty(), empty) == Seq::<u16>::empty());
            assert(utf16_units(elements[0] as u32) =~= seq![elements[0]]);
            assert(mapped_utf16(seq![elements[0] as u32], empty) =~= seq![elements[0]]);
            assert(elements =~= seq![elements[0]] + rest);
        }
    }
}

/// Appends the UTF-16 elements of mapped code points.
fn push_mapped_utf16(elements: &mut Vec<u16>, code_points: &[u32], mappings: &Utf16CharacterMappings)
    requires
        mapped_units_fit(code_points@, mappings@),
    ensures
        final(elements)@ == old(elements)@ + mapped_utf16(code_points@, mappings@),
{
    let ghost initial: Seq<u16> = elements@;
    let mut code_point_index: usize = 0;
    while code_point_index < code_points.len()
        invariant
            code_point_index <= code_points@.len(),
            mapped_units_fit(code_points@, mappings@),
            initial == old(elements)@,
            elements@ == initial + mapped_utf16(code_points@.take(code_point_index as int), mappings@),
        decreases code_points@.len() - code_point_index,
    {
        let mapped_code_point: u32 = mappings.get_code_point(&code_points[code_point_index]);
        assert(utf16_units_fit(fold_value(mappings@, code_points@[code_point_index as int])));
        push_utf16_units(elements, mapped_code_point);
        proof {
            let next = code_points@.take(code_point_index + 1);
            assert(next.drop_last() =~= code_points@.take(code_point_index as int));
        }
        code_point_index += 1;
        assert(elements@ =~= initial + mapped_utf16(code_points@.take(code_point_index as int), mappings@));
    }
    assert(code_points@.take(code_point_index as int) =~= code_points@);
}

/// Whether UTF-16 elements decode and every decoded code point is a Unicode scalar
/// value (no unpaired surrogate).
pub open spec fn is_valid_utf16(elements: Seq<u16>) -> bool {
    decode_utf16(elements) is Ok && forall|i: int|
        0 <= i < decode_utf16(elements)->Ok_0.len() ==> is_scalar_value(
            #[trigger] decode_utf16(elements)->Ok_0[i],
        )
}

/// Text form of valid UTF-16 elements: the characters of the decoded code points.
pub open spec fn utf16_display(elements: Seq<u16>) -> Seq<char> {
    decode_utf16(elements)->Ok_0.map_values(|code_point: u32| code_point as char)
}

/// UTF-16 string.
#[derive(Clone, Debug, Eq, Hash, Ord, PartialOrd)]
pub struct Utf16String {
    /// Elements.
    pub elements: Vec<u16>,
}

impl View for Utf16String {
    type V = Seq<u16>;

    open spec fn view(&self) -> Seq<u16> {
        self.elements@
    }
}

impl Default for Utf16String {
    /// Creates an empty UTF-16 string.
    fn default() -> (string: Self)
        ensures
            string@ == Seq::<u16>::empty(),
    {
        Self { elements: Vec::new() }
    }
}

impl Utf16String {
    /// Creates a new UTF-16 string.
    pub fn new() -> (string: Self)
        ensures
            string@ == Seq::<u16>::empty(),
    {
        Self { elements: Vec::new() }
    }

    /// Creates a new UTF-16 string with case folding applied to its code points.
    pub fn new_with_case_folding(&self, mappings: &Utf16CharacterMappings) -> (result: Result<
        Self,
        Utf16Error,
    >)
        requires
            decode_utf16(self@) is Ok ==> mapped_units_fit(decode_utf16(self@)->Ok_0, mappings@),
        ensures
            match decode_utf16(self@) {
                Ok(code_points) => result matches Ok(string) && string@ == mapped_utf16(
                    code_points,
                    mappings@,
                ),
                Err(error) => result == Err::<Self, Utf16Error>(error),
            },
    {
        let code_points: Vec<u32> = match self.decode() {
            Ok(code_points) => code_points,
            Err(error) => {
                return Err(error);
            }
        };
        let mut elements: Vec<u16> = Vec::new();
        push_mapped_utf16(&mut elements, code_points.as_slice(), mappings);
        assert(elements@ =~= mapped_utf16(code_points@, mappings@));
        Ok(Self { elements })
    }

    /// Decodes the UTF-16 string into code points.
    pub fn decode(&self) -> (result: Result<Vec<u32>, Utf16Error>)
        ensures
            match decode_utf16(self@) {
                Ok(code_points) => result matches Ok(decoded) && decoded@ == code_points,
                Err(error) => result == Err::<Vec<u32>, Utf16Error>(error),
            },
    {
        let number_of_elements: usize = self.elements.len();
        let mut code_points: Vec<u32> = Vec::new();
        let mut element_index: usize = 0;

        assert(self@.skip(0) =~= self@);
        while element_index < number_of_elements
            invariant
                number_of_elements == self@.len(),
                element_index <= number_of_elements,
                decode_utf16(self@) == (match decode_utf16(self@.skip(element_index as int)) {
                    Ok(rest) => Ok(code_points@ + rest),
                    Err(error) => Err(error),
                }),
            decreases number_of_elements - element_index,
        {
            let ghost remaining: Seq<u16> = self@.skip(element_index as int);
            let element: u16 = self.elements[element_index];
            let mut code_point: u32 = element as u32;

            if code_point >= 0xd800 && code_point <= 0xdbff {
                if element_index + 1 >= number_of_elements {
                    return Err(Utf16Error::MissingLowSurrogate);
                }
                let low_surrogate: u32 = self.elements[element_index + 1] as u32;
                if low_surrogate < 0xdc00 || low_surrogate > 0xdfff {
                    return Err(Utf16Error::LowSurrogateOutOfBounds);
                }
                code_point = 0x10000 + ((code_point - 0xd800) * 0x400) + (low_surrogate - 0xdc00);
                assert(remaining.skip(2) =~= self@.skip(element_index + 2));
                element_index += 2;
            } else {
                assert(remaining.drop_first() =~= self@.skip(element_index + 1));
                element_index += 1;
            }
            let ghost previous: Seq<u32> = code_points@;
            code_points.push(code_point);
            proof {
                assert forall|rest: Seq<u32>| previous + (seq![code_point] + rest) == code_points@ + rest by {
                    assert(previous + (seq![code_point] + rest) =~= code_points@ + rest);
                }
            }
        }
        proof {
            assert(self@.skip(element_index as int) =~= Seq::<u16>::empty());
            assert(code_points@ + Seq::<u32>::empty() =~= code_points@);
        }
        Ok(code_points)
    }

    /// Reads a big-endian UTF-16 string from a byte sequence, up to the first zero
    /// element.
    pub fn from_be_bytes(data: &[u8]) -> (string: Self)
        requires
            reads_whole_values(data@, true),
        ensures
            string@ == prefix_before(u16_values(data@, true), 0u16),
    {
        let mut elements: Vec<u16> = Vec::new();
        read_u16_values(&mut elements, data, true);
        assert(elements@ =~= prefix_before(u16_values(data@, true), 0u16));
        Self { elements }
    }

    /// Reads a little-endian UTF-16 string from a byte sequence, up to the first zero
    /// element.
    pub fn from_le_bytes(data: &[u8]) -> (string: Self)
        requires
            reads_whole_values(data@, false),
        ensures
            string@ == prefix_before(u16_values(data@, false), 0u16),
    {
        let mut elements: Vec<u16> = Vec::new();
        read_u16_values(&mut elements, data, false);
        assert(elements@ =~= prefix_before(u16_values(data@, false), 0u16));
        Self { elements }
    }

    /// Creates a new UTF-16 string from a string with case folding applied to its code
    /// points.
    pub fn from_string_with_case_folding(string: &str, mappings: &Utf16CharacterMappings) -> (utf16_string: Self)
        requires
            mapped_units_fit(code_points_of(string@), mappings@),
        ensures
            utf16_string@ == mapped_utf16(code_points_of(string@), mappings@),
    {
        let number_of_characters: usize = string.unicode_len();
        let mut code_points: Vec<u32> = Vec::new();
        let mut character_index: usize = 0;

        while character_index < number_of_characters
            invariant
                number_of_characters == string@.len(),
                character_index <= number_of_characters,
                code_points@ == code_points_of(string@.take(character_index as int)),
            decreases number_of_characters - character_index,
        {
            let character: char = string.get_char(character_index);
            code_points.push(character as u32);
            character_index += 1;
            assert(code_points@ =~= code_points_of(string@.take(character_index as int)));
        }
        assert(string@.take(number_of_characters as int) =~= string@);
        let mut elements: Vec<u16> = Vec::new();
        push_mapped_utf16(&mut elements, code_points.as_slice(), mappings);
        assert(elements@ =~= mapped_utf16(code_points@, mappings@));
        Self { elements }
    }

    /// Formats the UTF-16 string as text.
    pub fn to_string(&self) -> (string: String)
        requires
            is_valid_utf16(self@),
        ensures
            string@ == utf16_display(self@),
    {
        let code_points: Vec<u32> = match self.decode() {
            Ok(code_points) => code_points,
            Err(_) => {
                assert(false);
                Vec::new()
            },
        };
        let mut string: String = String::new();
        let mut index: usize = 0;
        while index < code_points.len()
            invariant
                code_points@ == decode_utf16(self@)->Ok_0,
                is_valid_utf16(self@),
                index <= code_points@.len(),
                string@ == code_points@.take(index as int).map_values(
                    |code_point: u32| code_point as char,
                ),
            decreases code_points@.len() - index,
        {
            assert(is_scalar_value(code_points@[index as int]));
            match char_from_u32(code_points[index]) {
                Some(character) => push_char(&mut string, character),
                None => assert(false),
            }
            index += 1;
            assert(string@ =~= code_points@.take(index as int).map_values(
                |code_point: u32| code_point as char,
            ));
        }
        assert(code_points@.take(index as int) =~= code_points@);
        string
    }

    /// Determines if the UTF-16 string is empty.
    pub fn is_empty(&self) -> (empty: bool)
        ensures
            empty == (self@.len() == 0),
    {
        self.elements.is_empty()
    }

    /// Retrieves the length (or size) of the UTF-16 string.
    pub fn len(&self) -> (length: usize)
        ensures
            length == self@.len(),
    {
        self.elements.len()
    }

    /// Reads a UTF-16 string from a buffer in big-endian, appending the elements up to
    /// the first zero element.
    pub fn read_data_be(&mut self, data: &[u8])
        requires
            reads_whole_values(data@, true),
        ensures
            final(self)@ == old(self)@ + prefix_before(u16_values(data@, true), 0u16),
    {
        read_u16_values(&mut self.elements, data, true);
    }

    /// Reads a UTF-16 string from a buffer in little-endian, appending the elements up to
    /// the first zero element.
    pub fn read_data_le(&mut self, data: &[u8])
        requires
            reads_whole_values(data@, false),
        ensures
            final(self)@ == old(self)@ + prefix_before(u16_values(data@, false), 0u16),
    {
        read_u16_values(&mut self.elements, data, false);
    }
}

impl PartialEq for Utf16String {
    /// Determines if two UTF-16 strings hold the same elements.
    fn eq(&self, other: &Self) -> (equal: bool) {
        elements_equal(self.elements.as_slice(), other.elements.as_slice())
    }
}

impl vstd::std_specs::cmp::PartialEqSpecImpl for Utf16String {
    open spec fn obeys_eq_spec() -> bool {
        true
    }

    open spec fn eq_spec(&self, other: &Self) -> bool {
        self@ == other@
    }
}

impl PartialEq<&[u16]> for Utf16String {
    /// Determines if a UTF-16 string holds the elements of a slice.
    fn eq(&self, slice: &&[u16]) -> (equal: bool) {
        elements_equal(self.elements.as_slice(), *slice)
    }
}

impl vstd::std_specs::cmp::PartialEqSpecImpl<&[u16]> for Utf16String {
    open spec fn obeys_eq_spec() -> bool {
        true
    }

    open spec fn eq_spec(&self, slice: &&[u16]) -> bool {
        self@ == slice@
    }
}

impl PartialEq<str> for Utf16String {
    /// Determines if a UTF-16 string holds the UTF-16 encoding of a string.
    fn eq(&self, string: &str) -> (equal: bool) {
        let encoded: Vec<u16> = encode_str_utf16(string);
        elements_equal(self.elements.as_slice(), encoded.as_slice())
    }
}

impl vstd::std_specs::cmp::PartialEqSpecImpl<str> for Utf16String {
    open spec fn obeys_eq_spec() -> bool {
        true
    }

    open spec fn eq_spec(&self, string: &str) -> bool {
        self@ == encode_utf16(string@)
    }
}

impl PartialEq<&str> for Utf16String {
    /// Determines if a UTF-16 string holds the UTF-16 encoding of a string.
    fn eq(&self, string: &&str) -> (equal: bool) {
        let encoded: Vec<u16> = encode_str_utf16(*string);
        elements_equal(self.elements.as_slice(), encoded.as_slice())
    }
}

impl vstd::std_specs::cmp::PartialEqSpecImpl<&str> for Utf16String {
    open spec fn obeys_eq_spec() -> bool {
        true
    }

    open spec fn eq_spec(&self, string: &&str) -> bool {
        self@ == encode_utf16(string@)
    }
}

impl From<&[u16]> for Utf16String {
    /// Converts a slice into a UTF-16 string of its elements up to the first zero element.
    fn from(slice: &[u16]) -> (string: Self)
        ensures
            string@ == prefix_before(slice@, 0u16),
    {
        Self { elements: elements_before_zero(slice) }
    }
}

impl vstd::std_specs::convert::FromSpecImpl<&[u16]> for Utf16String {
    open spec fn obeys_from_spec() -> bool {
        false
    }

    open spec fn from_spec(slice: &[u16]) -> Self {
        choose|string: Self| string@ == prefix_before(slice@, 0u16)
    }
}

impl From<&str> for Utf16String {
    /// Converts a string into a UTF-16 string of its UTF-16 encoding.
    fn from(string: &str) -> (utf16_string: Self)
        ensures
            utf16_string@ == encode_utf16(string@),
    {
        Self { elements: encode_str_utf16(string) }
    }
}

impl vstd::std_specs::convert::FromSpecImpl<&str> for Utf16String {
    open spec fn obeys_from_spec() -> bool {
        false
    }

    open spec fn from_spec(string: &str) -> Self {
        choose|utf16_string: Self| utf16_string@ == encode_utf16(string@)
    }
}

impl From<&String> for Utf16String {
    /// Converts a string into a UTF-16 string of its UTF-16 encoding.
    fn from(string: &String) -> (utf16_string: Self)
        ensures
            utf16_string@ == encode_utf16(string@),
    {
        Self { elements: encode_str_utf16(string.as_str()) }
    }
}

impl vstd::std_specs::convert::FromSpecImpl<&String> for Utf16String {
    open spec fn obeys_from_spec() -> bool {
        false
    }

    open spec fn from_spec(string: &String) -> Self {
        choose|utf16_string: Self| utf16_string@ == encode_utf16(string@)
    }
}

/// The code point of a character is the character's again.
proof fn lemma_char_code_point(character: char)
    ensures
        (character as u32) as char == character,
{
}

/// The text of a UTF-16 string made from text is that text.
pub proof fn law_display_of_encoding(chars: Seq<char>)
    ensures
        utf16_display(encode_utf16(chars)) == chars,
{
    law_decode_utf16_of_encoding(chars);
    let text: Seq<char> = code_points_of(chars).map_values(|code_point: u32| code_point as char);
    assert forall|index: int| 0 <= index < chars.len() implies #[trigger] text[index]
        == chars[index] by {
        assert(code_points_of(chars)[index] == chars[index] as u32);
        lemma_char_code_point(chars[index]);
    }
    assert(text =~= chars);
}

} // verus!
