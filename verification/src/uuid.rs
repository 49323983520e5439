//! Universally unique identifier (UUID).

use vstd::prelude::*;
use vstd::string::StringSliceAdditionalSpecFns;

use crate::bytes::{be2, be4, bytes_to_u16_be, bytes_to_u16_le, bytes_to_u32_be, bytes_to_u32_le, le2, le4};
use crate::text::{
    hex_digit_count, lower_hex, lower_hex_char, lower_hex_digits, push_char, push_lower_hex,
};

verus! {

/// Universally unique identifier (UUID).
#[derive(Clone, Copy, Debug, Eq, Hash, Ord, PartialEq, PartialOrd, Structural)]
pub struct Uuid {
    pub part1: u32,
    pub part2: u16,
    pub part3: u16,
    pub part4: u16,
    pub part5: u64,
}

/// Reason why a string is not read as a UUID.
#[derive(Clone, Copy, Debug, Eq, PartialEq, Structural)]
pub enum UuidError {
    /// The string, without enclosing braces, is not 36 bytes long.
    UnsupportedStringLength,
    /// The string does not have its separators at the expected positions.
    UnsupportedString,
    /// The given part (1 to 5) is not a hexadecimal number.
    UnableToParsePart(u8),
}

/// Value of a hexadecimal digit byte, either case.
pub open spec fn hex_digit_value(byte: u8) -> Option<nat> {
    if 0x30 <= byte <= 0x39 {
        Some((byte - 0x30) as nat)
    } else if 0x61 <= byte <= 0x66 {
        Some((byte - 0x57) as nat)
    } else if 0x41 <= byte <= 0x46 {
        Some((byte - 0x37) as nat)
    } else {
        None
    }
}

/// Value of a sequence of hexadecimal digit bytes, most significant first (zero for
/// none); nothing when a byte is no hexadecimal digit.
pub open spec fn hex_digits_value(digits: Seq<u8>) -> Option<nat>
    decreases digits.len(),
{
    if digits.len() == 0 {
        Some(0)
    } else {
        match (hex_digits_value(digits.drop_last()), hex_digit_value(digits.last())) {
            (Some(value), Some(digit)) => Some(value * 16 + digit),
            _ => None,
        }
    }
}

/// Reading of a byte string as an unsigned hexadecimal number, as std `from_str_radix`
/// with radix 16 does: an optional leading `+` followed by at least one hexadecimal
/// digit.
pub open spec fn parse_hex(text: Seq<u8>) -> Option<nat> {
    if text.len() == 0 {
        None
    } else if text[0] == 0x2b {
        if text.len() == 1 {
            None
        } else {
            hex_digits_value(text.drop_first())
        }
    } else {
        hex_digits_value(text)
    }
}

/// The bytes of a UUID string without enclosing braces.
pub open spec fn uuid_text(bytes: Seq<u8>) -> Seq<u8> {
    if bytes.len() >= 2 && bytes[0] == 0x7b && bytes.last() == 0x7d {
        bytes.subrange(1, bytes.len() - 1)
    } else {
        bytes
    }
}

/// Whether the separators of a UUID text are where they belong.
pub open spec fn has_uuid_separators(text: Seq<u8>) -> bool {
    text[8] == 0x2d && text[13] == 0x2d && text[18] == 0x2d && text[23] == 0x2d
}

/// Reading of the UTF-8 bytes of a string as a UUID:
/// `xxxxxxxx-xxxx-xxxx-xxxx-xxxxxxxxxxxx`, optionally enclosed in braces.
pub open spec fn uuid_from_text(bytes: Seq<u8>) -> Result<Uuid, UuidError> {
    let text = uuid_text(bytes);
    if text.len() != 36 {
        Err(UuidError::UnsupportedStringLength)
    } else if !has_uuid_separators(text) {
        Err(UuidError::UnsupportedString)
    } else {
        match (
            parse_hex(text.subrange(0, 8)),
            parse_hex(text.subrange(9, 13)),
            parse_hex(text.subrange(14, 18)),
            parse_hex(text.subrange(19, 23)),
            parse_hex(text.subrange(24, 36)),
        ) {
            (None, _, _, _, _) => Err(UuidError::UnableToParsePart(1)),
            (Some(_), None, _, _, _) => Err(UuidError::UnableToParsePart(2)),
            (Some(_), Some(_), None, _, _) => Err(UuidError::UnableToParsePart(3)),
            (Some(_), Some(_), Some(_), None, _) => Err(UuidError::UnableToParsePart(4)),
            (Some(_), Some(_), Some(_), Some(_), None) => Err(UuidError::UnableToParsePart(5)),
            (Some(part1), Some(part2), Some(part3), Some(part4), Some(part5)) => Ok(
                Uuid {
                    part1: part1 as u32,
                    part2: part2 as u16,
                    part3: part3 as u16,
                    part4: part4 as u16,
                    part5: part5 as u64,
                },
            ),
        }
    }
}

/// Comparing the separators of a UUID text by string slicing would split a character
/// (reading `string[8..9]`, then `string[13..14]` and so on up to the first that is no
/// `-`).
pub open spec fn uuid_separator_slicing_splits_character(bytes: Seq<u8>) -> bool {
    let text = uuid_text(bytes);
    let boundary = |index: int| vstd::utf8::is_char_boundary(text, index);
    text.len() == 36 && {
        ||| !(boundary(8) && boundary(9))
        ||| text[8] == 0x2d && !(boundary(13) && boundary(14))
        ||| text[8] == 0x2d && text[13] == 0x2d && !(boundary(18) && boundary(19))
        ||| text[8] == 0x2d && text[13] == 0x2d && text[18] == 0x2d && !(boundary(23) && boundary(
            24,
        ))
    }
}

/// The text form of a UUID: `xxxxxxxx-xxxx-xxxx-xxxx-xxxxxxxxxxxx` in lower case
/// hexadecimal, the last part written with at least twelve digits.
pub open spec fn uuid_string(uuid: Uuid) -> Seq<char> {
    lower_hex(uuid.part1 as nat, 8) + seq!['-'] + lower_hex(uuid.part2 as nat, 4) + seq!['-']
        + lower_hex(uuid.part3 as nat, 4) + seq!['-'] + lower_hex(uuid.part4 as nat, 4) + seq![
        '-',
    ] + lower_hex(uuid.part5 as nat, 12)
}

/// Value of the bytes `start..end` of `text` read as by `parse_hex`.
fn read_hex(text: &[u8], start: usize, end: usize) -> (value: Option<u64>)
    requires
        start < end <= text@.len(),
        end - start <= 12,
    ensures
        match parse_hex(text@.subrange(start as int, end as int)) {
            Some(number) => value == Some(number as u64) && number < power16_bound(
                (end - start) as nat,
            ),
            None => value is None,
        },
{
    let ghost digits_all: Seq<u8> = text@.subrange(start as int, end as int);
    let mut index: usize = start;
    if text[start] == 0x2b {
        if end - start == 1 {
            return None;
        }
        index = start + 1;
    }
    let first_digit: usize = index;
    let ghost digits: Seq<u8> = text@.subrange(first_digit as int, end as int);
    assert(digits_all[0] == text@[start as int]);
    assert(first_digit > start ==> digits_all.drop_first() =~= digits);
    assert(first_digit == start ==> digits_all =~= digits);
    let mut value: u64 = 0;
    proof {
        assert(text@.subrange(first_digit as int, first_digit as int) =~= Seq::<u8>::empty());
        assert(parse_hex(digits_all) == hex_digits_value(digits));
    }
    assert(power16_bound(12) == 0x1_0000_0000_0000) by {
        reveal_with_fuel(power16_bound, 13);
    }
    while index < end
        invariant
            first_digit <= index <= end,
            end <= text@.len(),
            end - first_digit <= 12,
            hex_digits_value(text@.subrange(first_digit as int, index as int)) == Some(
                value as nat,
            ),
            (value as nat) < power16_bound((index - first_digit) as nat),
            parse_hex(text@.subrange(start as int, end as int)) == hex_digits_value(
                text@.subrange(first_digit as int, end as int),
            ),
            power16_bound(12) == 0x1_0000_0000_0000,
        decreases end - index,
    {
        let byte: u8 = text[index];
        let digit: u64 = if byte >= 0x30 && byte <= 0x39 {
            (byte - 0x30) as u64
        } else if byte >= 0x61 && byte <= 0x66 {
            (byte - 0x57) as u64
        } else if byte >= 0x41 && byte <= 0x46 {
            (byte - 0x37) as u64
        } else {
            proof {
                let next = text@.subrange(first_digit as int, index + 1);
                assert(next.drop_last() =~= text@.subrange(first_digit as int, index as int));
                lemma_hex_digits_invalid(text@.subrange(first_digit as int, end as int), (index - first_digit) as int);
            }
            return None;
        };
        proof {
            lemma_power16_bound_monotone((index - first_digit + 1) as nat, 12);
            let next = text@.subrange(first_digit as int, index + 1);
            assert(next.drop_last() =~= text@.subrange(first_digit as int, index as int));
            assert(next.last() == byte);
            assert(value as nat * 16 + digit < power16_bound((index - first_digit + 1) as nat))
                by (nonlinear_arith)
                requires
                    (value as nat) < power16_bound((index - first_digit) as nat),
                    digit < 16,
                    power16_bound((index - first_digit + 1) as nat) == 16 * power16_bound(
                        (index - first_digit) as nat,
                    ),
            ;
        }
        value = value * 16 + digit;
        index += 1;
    }
    proof {
        lemma_power16_bound_monotone((end - first_digit) as nat, (end - start) as nat);
    }
    Some(value)
}

/// Powers of 16.
pub open spec fn power16_bound(exponent: nat) -> nat
    decreases exponent,
{
    if exponent == 0 {
        1
    } else {
        16 * power16_bound((exponent - 1) as nat)
    }
}

proof fn lemma_power16_bound_monotone(low: nat, high: nat)
    requires
        low <= high,
    ensures
        power16_bound(low) <= power16_bound(high),
    decreases high - low,
{
    if low < high {
        lemma_power16_bound_monotone(low, (high - 1) as nat);
    }
}

/// A sequence of digits that holds a byte that is no hexadecimal digit has no value.
proof fn lemma_hex_digits_invalid(digits: Seq<u8>, position: int)
    requires
        0 <= position < digits.len(),
        hex_digit_value(digits[position]) is None,
    ensures
        hex_digits_value(digits) is None,
    decreases digits.len(),
{
    if position < digits.len() - 1 {
        lemma_hex_digits_invalid(digits.drop_last(), position);
    }
}

impl Default for Uuid {
    /// Creates the nil UUID.
    fn default() -> (uuid: Self)
        ensures
            uuid == (Uuid { part1: 0, part2: 0, part3: 0, part4: 0, part5: 0 }),
    {
        Self { part1: 0, part2: 0, part3: 0, part4: 0, part5: 0 }
    }
}

impl Uuid {
    /// Creates a new UUID, the nil UUID.
    pub fn new() -> (uuid: Self)
        ensures
            uuid == (Uuid { part1: 0, part2: 0, part3: 0, part4: 0, part5: 0 }),
    {
        Self::default()
    }

    /// Creates a new UUID from a big-endian byte sequence.
    pub fn from_be_bytes(data: &[u8]) -> (uuid: Self)
        requires
            data@.len() >= 16,
        ensures
            uuid.part1 == be4(data@, 0),
            uuid.part2 == be2(data@, 4),
            uuid.part3 == be2(data@, 6),
            uuid.part4 == be2(data@, 8),
            uuid.part5 == be2(data@, 10) * 0x1_0000_0000 + be4(data@, 12),
    {
        let part5_upper: u16 = bytes_to_u16_be(data, 10);
        let part5_lower: u32 = bytes_to_u32_be(data, 12);
        Self {
            part1: bytes_to_u32_be(data, 0),
            part2: bytes_to_u16_be(data, 4),
            part3: bytes_to_u16_be(data, 6),
            part4: bytes_to_u16_be(data, 8),
            part5: (part5_upper as u64) * 0x1_0000_0000 + (part5_lower as u64),
        }
    }

    /// Creates a new UUID from a little-endian byte sequence: the first three parts are
    /// stored in little-endian, the last two in big-endian.
    pub fn from_le_bytes(data: &[u8]) -> (uuid: Self)
        requires
            data@.len() >= 16,
        ensures
            uuid.part1 == le4(data@, 0),
            uuid.part2 == le2(data@, 4),
            uuid.part3 == le2(data@, 6),
            uuid.part4 == be2(data@, 8),
            uuid.part5 == be2(data@, 10) * 0x1_0000_0000 + be4(data@, 12),
    {
        let part5_upper: u16 = bytes_to_u16_be(data, 10);
        let part5_lower: u32 = bytes_to_u32_be(data, 12);
        Self {
            part1: bytes_to_u32_le(data, 0),
            part2: bytes_to_u16_le(data, 4),
            part3: bytes_to_u16_le(data, 6),
            part4: bytes_to_u16_be(data, 8),
            part5: (part5_upper as u64) * 0x1_0000_0000 + (part5_lower as u64),
        }
    }

    /// Creates a new UUID from a string of the form
    /// `xxxxxxxx-xxxx-xxxx-xxxx-xxxxxxxxxxxx`, optionally enclosed in braces.
    pub fn from_string(string: &str) -> (result: Result<Self, UuidError>)
        requires
            !uuid_separator_slicing_splits_character(string.spec_bytes()),
        ensures
            result == uuid_from_text(string.spec_bytes()),
    {
        let bytes: &[u8] = string.as_bytes();
        let mut start: usize = 0;
        let mut end: usize = bytes.len();

        if end >= 2 && bytes[0] == 0x7b && bytes[end - 1] == 0x7d {
            start = 1;
            end -= 1;
        }
        let ghost text: Seq<u8> = bytes@.subrange(start as int, end as int);
        assert(text =~= uuid_text(bytes@));
        if end - start != 36 {
            return Err(UuidError::UnsupportedStringLength);
        }
        if bytes[start + 8] != 0x2d || bytes[start + 13] != 0x2d || bytes[start + 18] != 0x2d
            || bytes[start + 23] != 0x2d {
            return Err(UuidError::UnsupportedString);
        }
        proof {
            assert(text.subrange(0, 8) =~= bytes@.subrange(start as int, start + 8));
            assert(text.subrange(9, 13) =~= bytes@.subrange(start + 9, start + 13));
            assert(text.subrange(14, 18) =~= bytes@.subrange(start + 14, start + 18));
            assert(text.subrange(19, 23) =~= bytes@.subrange(start + 19, start + 23));
            assert(text.subrange(24, 36) =~= bytes@.subrange(start + 24, start + 36));
            reveal_with_fuel(power16_bound, 13);
        }
        let part1: u64 = match read_hex(bytes, start, start + 8) {
            Some(value) => value,
            None => return Err(UuidError::UnableToParsePart(1)),
        };
        let part2: u64 = match read_hex(bytes, start + 9, start + 13) {
            Some(value) => value,
            None => return Err(UuidError::UnableToParsePart(2)),
        };
        let part3: u64 = match read_hex(bytes, start + 14, start + 18) {
            Some(value) => value,
            None => return Err(UuidError::UnableToParsePart(3)),
        };
        let part4: u64 = match read_hex(bytes, start + 19, start + 23) {
            Some(value) => value,
            None => return Err(UuidError::UnableToParsePart(4)),
        };
        let part5: u64 = match read_hex(bytes, start + 24, start + 36) {
            Some(value) => value,
            None => return Err(UuidError::UnableToParsePart(5)),
        };
        Ok(
            Self {
                part1: part1 as u32,
                part2: part2 as u16,
                part3: part3 as u16,
                part4: part4 as u16,
                part5,
            },
        )
    }

    /// Determines if the UUID is the Max (or Omni) UUID (ffffffff-ffff-ffff-ffff-ffffffffffff)
    pub fn is_max(&self) -> (max: bool)
        ensures
            max == (self.part1 == 0xffffffff && self.part2 == 0xffff && self.part3 == 0xffff
                && self.part4 == 0xffff && self.part5 == 0xffffffffffff),
    {
        self.part1 == 0xffffffff && self.part2 == 0xffff && self.part3 == 0xffff && self.part4
            == 0xffff && self.part5 == 0xffffffffffff
    }

    /// Determines if the UUID is the Nil UUID (00000000-0000-0000-0000-000000000000)
    pub fn is_nil(&self) -> (nil: bool)
        ensures
            nil == (self.part1 == 0 && self.part2 == 0 && self.part3 == 0 && self.part4 == 0
                && self.part5 == 0),
    {
        self.part1 == 0 && self.part2 == 0 && self.part3 == 0 && self.part4 == 0 && self.part5
            == 0
    }

    /// Formats the UUID as `xxxxxxxx-xxxx-xxxx-xxxx-xxxxxxxxxxxx`.
    pub fn to_string(&self) -> (string: String)
        ensures
            string@ == uuid_string(*self),
    {
        let mut string: String = String::new();
        push_lower_hex(&mut string, self.part1 as u64, 8);
        push_char(&mut string, '-');
        push_lower_hex(&mut string, self.part2 as u64, 4);
        push_char(&mut string, '-');
        push_lower_hex(&mut string, self.part3 as u64, 4);
        push_char(&mut string, '-');
        push_lower_hex(&mut string, self.part4 as u64, 4);
        push_char(&mut string, '-');
        push_lower_hex(&mut string, self.part5, 12);
        string
    }
}

} // verus!

verus! {

/// Bytes of characters that are all ASCII, one per character.
pub open spec fn ascii_bytes(chars: Seq<char>) -> Seq<u8> {
    chars.map_values(|character: char| character as u8)
}

/// Whether a character is a lower case hexadecimal digit.
pub open spec fn is_lower_hex_char(character: char) -> bool {
    ('0' <= character <= '9') || ('a' <= character <= 'f')
}

/// The digits of a value in hexadecimal are as many as asked for, each a lower case
/// hexadecimal digit, and where the value fits they read back as the value.
proof fn lemma_lower_hex_digits(value: nat, width: nat)
    ensures
        lower_hex_digits(value, width).len() == width,
        forall|i: int|
            0 <= i < width ==> is_lower_hex_char(#[trigger] lower_hex_digits(value, width)[i]),
        value < power16_bound(width) ==> hex_digits_value(
            ascii_bytes(lower_hex_digits(value, width)),
        ) == Some(value),
    decreases width,
{
    if width > 0 {
        let rest: nat = value / 16;
        let digit: nat = value % 16;
        lemma_lower_hex_digits(rest, (width - 1) as nat);
        let digits: Seq<char> = lower_hex_digits(value, width);
        let character: char = lower_hex_char(digit);
        if digit < 10 {
            assert(character as nat == 48 + digit);
        } else {
            assert(character as nat == 87 + digit);
        }
        assert(is_lower_hex_char(character));
        assert(hex_digit_value(character as u8) == Some(digit));
        assert(ascii_bytes(digits).drop_last() =~= ascii_bytes(lower_hex_digits(rest, (width - 1) as nat)));
        assert(ascii_bytes(digits).last() == character as u8);
        vstd::arithmetic::div_mod::lemma_fundamental_div_mod(value as int, 16);
        if value < power16_bound(width) {
            assert(rest < power16_bound((width - 1) as nat)) by (nonlinear_arith)
                requires
                    value < 16 * power16_bound((width - 1) as nat),
                    rest == value / 16,
            ;
        }
    } else {
        assert(ascii_bytes(lower_hex_digits(value, width)) =~= Seq::<u8>::empty());
    }
}

/// A value that fits in a number of hexadecimal digits needs no more of them.
proof fn lemma_hex_digit_count_fits(value: nat, width: nat)
    requires
        width >= 1,
        value < power16_bound(width),
    ensures
        hex_digit_count(value) <= width,
        lower_hex(value, width) == lower_hex_digits(value, width),
    decreases width,
{
    if value >= 16 {
        assert(width >= 2) by {
            if width == 1 {
                assert(power16_bound(1) == 16) by {
                    reveal_with_fuel(power16_bound, 2);
                }
            }
        }
        assert(value / 16 < power16_bound((width - 1) as nat)) by (nonlinear_arith)
            requires
                value < 16 * power16_bound((width - 1) as nat),
        ;
        lemma_hex_digit_count_fits(value / 16, (width - 1) as nat);
    }
}

/// Every byte of the UTF-8 encoding of ASCII characters starts a character.
proof fn lemma_ascii_char_boundaries(chars: Seq<char>, index: int)
    requires
        vstd::utf8::is_ascii_chars(chars),
        0 <= index <= chars.len(),
    ensures
        vstd::utf8::is_char_boundary(vstd::utf8::encode_utf8(chars), index),
    decreases chars.len(),
{
    let bytes: Seq<u8> = vstd::utf8::encode_utf8(chars);
    vstd::utf8::encode_utf8_valid_utf8(chars);
    vstd::utf8::is_ascii_chars_encode_utf8(chars);
    if index > 0 {
        vstd::utf8::encode_utf8_first_scalar(chars);
        assert('\0' <= chars[0] <= '\u{7f}');
        assert(vstd::utf8::pop_first_scalar(bytes) =~= vstd::utf8::encode_utf8(chars.drop_first()));
        assert(vstd::utf8::is_ascii_chars(chars.drop_first())) by {
            assert forall|i: int| 0 <= i < chars.drop_first().len() implies '\0'
                <= #[trigger] chars.drop_first()[i] <= '\u{7f}' by {
                assert(chars.drop_first()[i] == chars[i + 1]);
            }
        }
        lemma_ascii_char_boundaries(chars.drop_first(), index - 1);
    }
}

/// Reading the text of a UUID gives the UUID back, where its last part fits in the twelve
/// hexadecimal digits that the text has room for; reading that text splits no character.
pub proof fn law_uuid_from_string_of_to_string(uuid: Uuid)
    requires
        uuid.part5 < 0x1_0000_0000_0000,
    ensures
        vstd::utf8::is_ascii_chars(uuid_string(uuid)),
        !uuid_separator_slicing_splits_character(vstd::utf8::encode_utf8(uuid_string(uuid))),
        uuid_from_text(vstd::utf8::encode_utf8(uuid_string(uuid))) == Ok::<Uuid, UuidError>(uuid),
{
    reveal_with_fuel(power16_bound, 13);
    assert(power16_bound(4) == 0x1_0000);
    assert(power16_bound(8) == 0x1_0000_0000);
    assert(power16_bound(12) == 0x1_0000_0000_0000);
    let (p1, p2, p3, p4, p5): (nat, nat, nat, nat, nat) = (
        uuid.part1 as nat,
        uuid.part2 as nat,
        uuid.part3 as nat,
        uuid.part4 as nat,
        uuid.part5 as nat,
    );
    lemma_hex_digit_count_fits(p1, 8);
    lemma_hex_digit_count_fits(p2, 4);
    lemma_hex_digit_count_fits(p3, 4);
    lemma_hex_digit_count_fits(p4, 4);
    lemma_hex_digit_count_fits(p5, 12);
    lemma_lower_hex_digits(p1, 8);
    lemma_lower_hex_digits(p2, 4);
    lemma_lower_hex_digits(p3, 4);
    lemma_lower_hex_digits(p4, 4);
    lemma_lower_hex_digits(p5, 12);
    let h1: Seq<char> = lower_hex_digits(p1, 8);
    let h2: Seq<char> = lower_hex_digits(p2, 4);
    let h3: Seq<char> = lower_hex_digits(p3, 4);
    let h4: Seq<char> = lower_hex_digits(p4, 4);
    let h5: Seq<char> = lower_hex_digits(p5, 12);
    let text: Seq<char> = uuid_string(uuid);
    assert(text =~= h1 + seq!['-'] + h2 + seq!['-'] + h3 + seq!['-'] + h4 + seq!['-'] + h5);
    assert(text.len() == 36);
    assert(vstd::utf8::is_ascii_chars(text)) by {
        assert forall|i: int| 0 <= i < text.len() implies '\0' <= #[trigger] text[i] <= '\u{7f}' by {
            if i < 8 {
                assert(is_lower_hex_char(h1[i]));
            } else if 9 <= i < 13 {
                assert(is_lower_hex_char(h2[i - 9]));
            } else if 14 <= i < 18 {
                assert(is_lower_hex_char(h3[i - 14]));
            } else if 19 <= i < 23 {
                assert(is_lower_hex_char(h4[i - 19]));
            } else if 24 <= i {
                assert(is_lower_hex_char(h5[i - 24]));
            }
        }
    }
    vstd::utf8::is_ascii_chars_encode_utf8(text);
    let bytes: Seq<u8> = vstd::utf8::encode_utf8(text);
    assert(bytes =~= ascii_bytes(text));
    assert(is_lower_hex_char(h1[0]));
    assert(uuid_text(bytes) == bytes);
    assert(bytes.subrange(0, 8) =~= ascii_bytes(h1));
    assert(bytes.subrange(9, 13) =~= ascii_bytes(h2));
    assert(bytes.subrange(14, 18) =~= ascii_bytes(h3));
    assert(bytes.subrange(19, 23) =~= ascii_bytes(h4));
    assert(bytes.subrange(24, 36) =~= ascii_bytes(h5));
    assert(is_lower_hex_char(h2[0]));
    assert(is_lower_hex_char(h3[0]));
    assert(is_lower_hex_char(h4[0]));
    assert(is_lower_hex_char(h5[0]));
    assert(has_uuid_separators(bytes));
    lemma_ascii_char_boundaries(text, 8);
    lemma_ascii_char_boundaries(text, 9);
    lemma_ascii_char_boundaries(text, 13);
    lemma_ascii_char_boundaries(text, 14);
    lemma_ascii_char_boundaries(text, 18);
    lemma_ascii_char_boundaries(text, 19);
    lemma_ascii_char_boundaries(text, 23);
    lemma_ascii_char_boundaries(text, 24);
}

/// Text of a UUID enclosed in braces reads back as the UUID, as the text alone does.
pub proof fn law_uuid_from_braced_string_of_to_string(uuid: Uuid)
    requires
        uuid.part5 < 0x1_0000_0000_0000,
    ensures
        !uuid_separator_slicing_splits_character(
            vstd::utf8::encode_utf8(seq!['{'] + uuid_string(uuid) + seq!['}']),
        ),
        uuid_from_text(vstd::utf8::encode_utf8(seq!['{'] + uuid_string(uuid) + seq!['}']))
            == Ok::<Uuid, UuidError>(uuid),
{
    law_uuid_from_string_of_to_string(uuid);
    let text: Seq<char> = uuid_string(uuid);
    let braced: Seq<char> = seq!['{'] + text + seq!['}'];
    assert(vstd::utf8::is_ascii_chars(braced)) by {
        assert forall|i: int| 0 <= i < braced.len() implies '\0' <= #[trigger] braced[i]
            <= '\u{7f}' by {
            if 1 <= i < braced.len() - 1 {
                assert(braced[i] == text[i - 1]);
            }
        }
    }
    vstd::utf8::is_ascii_chars_encode_utf8(text);
    vstd::utf8::is_ascii_chars_encode_utf8(braced);
    let bytes: Seq<u8> = vstd::utf8::encode_utf8(text);
    let braced_bytes: Seq<u8> = vstd::utf8::encode_utf8(braced);
    assert(braced_bytes[0] == 0x7b);
    assert(braced_bytes.last() == 0x7d);
    assert(braced_bytes.subrange(1, braced_bytes.len() - 1) =~= bytes) by {
        assert forall|i: int| 0 <= i < bytes.len() implies braced_bytes.subrange(
            1,
            braced_bytes.len() - 1,
        )[i] == bytes[i] by {
            assert(braced[i + 1] == text[i]);
        }
    }
    assert(uuid_text(braced_bytes) == uuid_text(bytes));
}

} // verus!
