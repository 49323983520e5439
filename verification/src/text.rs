//! Building strings character by character, and hexadecimal digits.

use vstd::prelude::*;

verus! {

/// Whether a value is a Unicode scalar value, that is a code point that is no surrogate.
pub open spec fn is_scalar_value(value: u32) -> bool {
    value < 0xd800 || (0xdfff < value && value <= 0x10ffff)
}

/// The character of a code point, if it is a Unicode scalar value (std `char::from_u32`).
#[verifier::external_body]
pub(crate) fn char_from_u32(value: u32) -> (character: Option<char>)
    ensures
        character == (if is_scalar_value(value) {
            Some(value as char)
        } else {
            None::<char>
        }),
{
    char::from_u32(value)
}

/// Appends a character to a string (std `String::push`).
#[verifier::external_body]
pub(crate) fn push_char(string: &mut String, character: char)
    ensures
        final(string)@ == old(string)@.push(character),
{
    string.push(character)
}

/// Appends a string slice to a string (std `String::push_str`).
#[verifier::external_body]
pub(crate) fn push_str(string: &mut String, text: &str)
    ensures
        final(string)@ == old(string)@ + text@,
{
    string.push_str(text)
}

/// Lower case hexadecimal digit of a value below 16.
pub open spec fn lower_hex_char(digit: nat) -> char {
    if digit < 10 {
        (48 + digit) as char
    } else {
        (87 + digit) as char
    }
}

/// The lowest `width` hexadecimal digits of a value, most significant first.
pub open spec fn lower_hex_digits(value: nat, width: nat) -> Seq<char>
    decreases width,
{
    if width == 0 {
        Seq::empty()
    } else {
        lower_hex_digits(value / 16, (width - 1) as nat).push(lower_hex_char(value % 16))
    }
}

/// Number of hexadecimal digits needed to write a value (one for zero).
pub open spec fn hex_digit_count(value: nat) -> nat
    decreases value,
{
    if value < 16 {
        1
    } else {
        1 + hex_digit_count(value / 16)
    }
}

/// A value written in lower case hexadecimal, padded with zeros to at least
/// `min_width` digits.
pub open spec fn lower_hex(value: nat, min_width: nat) -> Seq<char> {
    lower_hex_digits(
        value,
        if hex_digit_count(value) > min_width {
            hex_digit_count(value)
        } else {
            min_width
        },
    )
}

/// Lower case hexadecimal digit of a value below 16.
pub fn hex_digit_char(digit: u64) -> (character: char)
    requires
        digit < 16,
    ensures
        character == lower_hex_char(digit as nat),
{
    let code_point: u32 = if digit < 10 {
        48 + digit as u32
    } else {
        87 + digit as u32
    };
    match char_from_u32(code_point) {
        Some(character) => character,
        None => {
            assert(false);
            ' '
        },
    }
}

/// Number of hexadecimal digits needed to write a value (one for zero).
pub fn count_hex_digits(value: u64) -> (count: usize)
    ensures
        count == hex_digit_count(value as nat),
        count <= 16,
{
    let mut remaining: u64 = value;
    let mut count: usize = 1;
    assert(power16(16) == 0x1_0000_0000_0000_0000) by {
        reveal_with_fuel(power16, 17);
    }
    while remaining >= 16
        invariant
            1 <= count <= 16,
            count + hex_digit_count(remaining as nat) == hex_digit_count(value as nat) + 1,
            remaining < power16((17 - count) as nat),
        decreases remaining,
    {
        assert(count < 16) by {
            reveal_with_fuel(power16, 2);
        }
        let ghost bound: nat = power16((16 - count) as nat);
        assert(power16((17 - count) as nat) == 16 * bound);
        assert(remaining as nat / 16 < bound) by (nonlinear_arith)
            requires
                remaining < 16 * bound,
        ;
        remaining = remaining / 16;
        count += 1;
    }
    count
}

/// Powers of 16.
pub open spec fn power16(exponent: nat) -> nat
    decreases exponent,
{
    if exponent == 0 {
        1
    } else {
        16 * power16((exponent - 1) as nat)
    }
}

/// Appends a value written in lower case hexadecimal, padded with zeros to at least
/// `min_width` digits.
pub fn push_lower_hex(string: &mut String, value: u64, min_width: usize)
    requires
        min_width <= 16,
    ensures
        final(string)@ == old(string)@ + lower_hex(value as nat, min_width as nat),
{
    let needed: usize = count_hex_digits(value);
    let width: usize = if needed > min_width {
        needed
    } else {
        min_width
    };
    let mut digits: Vec<char> = Vec::new();
    let mut remaining: u64 = value;
    let mut count: usize = 0;

    assert(lower_hex_digits(value as nat, width as nat) == lower_hex_digits(
        remaining as nat,
        width as nat,
    ) + digits@.reverse());
    while count < width
        invariant
            count <= width,
            width <= 16,
            digits@.len() == count,
            lower_hex_digits(value as nat, width as nat) == lower_hex_digits(
                remaining as nat,
                (width - count) as nat,
            ) + digits@.reverse(),
        decreases width - count,
    {
        let digit: u64 = remaining % 16;
        let character: char = hex_digit_char(digit);
        let ghost previous: Seq<char> = digits@;
        digits.push(character);
        proof {
            assert(digits@.reverse() =~= seq![character] + previous.reverse());
            let rest = lower_hex_digits(remaining as nat / 16, (width - count - 1) as nat);
            assert(rest.push(character) + previous.reverse() =~= rest + (seq![character]
                + previous.reverse()));
        }
        remaining = remaining / 16;
        count += 1;
    }
    assert(lower_hex_digits(value as nat, width as nat) =~= digits@.reverse());
    let ghost initial: Seq<char> = string@;
    let mut index: usize = width;
    while index > 0
        invariant
            index <= width,
            digits@.len() == width,
            initial == old(string)@,
            string@ == initial + digits@.reverse().take((width - index) as int),
        decreases index,
    {
        index -= 1;
        push_char(string, digits[index]);
        assert(digits@.reverse().take((width - index) as int) =~= digits@.reverse().take(
            (width - index - 1) as int,
        ).push(digits@[index as int]));
    }
    assert(digits@.reverse().take(width as int) =~= digits@.reverse());
}

/// Decimal digits of a value, most significant first, without leading zeros.
pub open spec fn decimal_digits(value: nat) -> Seq<char>
    decreases value,
{
    if value < 10 {
        seq![(48 + value) as char]
    } else {
        decimal_digits(value / 10).push((48 + value % 10) as char)
    }
}

/// Value of a sequence of decimal digit characters, most significant first (zero for
/// none); nothing when a character is no decimal digit.
pub open spec fn decimal_value(digits: Seq<char>) -> Option<nat>
    decreases digits.len(),
{
    if digits.len() == 0 {
        Some(0)
    } else {
        match decimal_value(digits.drop_last()) {
            Some(value) => if '0' <= digits.last() <= '9' {
                Some(value * 10 + (digits.last() as nat - 48) as nat)
            } else {
                None
            },
            None => None,
        }
    }
}

/// Reading decimal digits gives back the value they were written from.
pub proof fn law_decimal_round_trip(value: nat)
    ensures
        decimal_value(decimal_digits(value)) == Some(value),
        decimal_digits(value).len() > 0,
    decreases value,
{
    let digit: nat = value % 10;
    let character: char = (48 + digit) as char;
    assert(character as nat == 48 + digit);
    assert('0' <= character <= '9');
    vstd::arithmetic::div_mod::lemma_fundamental_div_mod(value as int, 10);
    if value < 10 {
        assert(decimal_digits(value).drop_last() =~= Seq::<char>::empty());
        assert(decimal_digits(value).last() == character);
        assert(decimal_value(Seq::<char>::empty()) == Some(0nat));
    } else {
        law_decimal_round_trip(value / 10);
        assert(decimal_digits(value).drop_last() =~= decimal_digits(value / 10));
        assert(decimal_digits(value).last() == character);
    }
}

/// Every leading part of a sequence of decimal digits is itself a sequence of decimal digits,
/// of at most the same value.
pub proof fn lemma_decimal_value_take(digits: Seq<char>, count: int)
    requires
        0 <= count <= digits.len(),
        decimal_value(digits) is Some,
    ensures
        decimal_value(digits.take(count)) is Some,
        decimal_value(digits.take(count))->0 <= decimal_value(digits)->0,
    decreases digits.len(),
{
    if count == digits.len() {
        assert(digits.take(count) =~= digits);
    } else {
        let rest: Seq<char> = digits.drop_last();
        lemma_decimal_value_take(rest, count);
        assert(rest.take(count) =~= digits.take(count));
    }
}

/// Reads a digit character as its value.
pub fn decimal_digit_value(character: char) -> (digit: Option<u32>)
    ensures
        ('0' <= character <= '9') ==> digit == Some((character as u32 - 48) as u32),
        !('0' <= character <= '9') ==> digit is None,
{
    let code: u32 = character as u32;
    if 48 <= code && code <= 57 {
        Some(code - 48)
    } else {
        None
    }
}

/// Appends a value written in decimal.
pub fn push_decimal(string: &mut String, value: u64)
    ensures
        final(string)@ == old(string)@ + decimal_digits(value as nat),
{
    let mut digits: Vec<char> = Vec::new();
    let mut remaining: u64 = value;

    loop
        invariant_except_break
            decimal_digits(value as nat) == decimal_digits(remaining as nat) + digits@.reverse(),
        ensures
            decimal_digits(value as nat) == digits@.reverse(),
        decreases remaining,
    {
        let digit: u32 = (remaining % 10) as u32;
        let character: char = match char_from_u32(48 + digit) {
            Some(character) => character,
            None => {
                assert(false);
                '0'
            },
        };
        let ghost previous: Seq<char> = digits@;
        digits.push(character);
        assert(digits@.reverse() =~= seq![character] + previous.reverse());
        if remaining < 10 {
            assert(decimal_digits(remaining as nat) =~= seq![character]);
            assert(decimal_digits(value as nat) =~= digits@.reverse());
            break;
        }
        let ghost rest: Seq<char> = decimal_digits(remaining as nat / 10);
        assert(rest.push(character) + previous.reverse() =~= rest + (seq![character]
            + previous.reverse()));
        remaining = remaining / 10;
    }
    let ghost initial: Seq<char> = string@;
    let number_of_digits: usize = digits.len();
    let mut index: usize = number_of_digits;
    while index > 0
        invariant
            index <= number_of_digits,
            digits@.len() == number_of_digits,
            initial == old(string)@,
            string@ == initial + digits@.reverse().take((number_of_digits - index) as int),
        decreases index,
    {
        index -= 1;
        push_char(string, digits[index]);
        assert(digits@.reverse().take((number_of_digits - index) as int) =~= digits@.reverse().take(
            (number_of_digits - index - 1) as int,
        ).push(digits@[index as int]));
    }
    assert(digits@.reverse().take(number_of_digits as int) =~= digits@.reverse());
}

} // verus!
