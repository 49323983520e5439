//! Byte string: a string of bytes in a character encoding.

use vstd::prelude::*;
use vstd::string::StringSliceAdditionalSpecFns;

use keramics_encodings::{new_character_decoder, new_character_encoder, CharacterEncoding};

use crate::elements::{lemma_prefix_before, lemma_prefix_before_absent, prefix_before};
use crate::text::{char_from_u32, is_scalar_value, lower_hex, push_char, push_lower_hex, push_str};
use crate::ucs2_string::Ucs2String;
use crate::utf16_string::{code_points_of, decode_utf16, Utf16String};

verus! {

/// Character encoding of the keramics_encodings crate.
#[verifier::external_type_specification]
#[verifier::external_body]
pub struct ExCharacterEncoding(CharacterEncoding);

/// Whether keramics_encodings has a character decoder for an encoding.
pub uninterp spec fn decoder_supported(encoding: CharacterEncoding) -> bool;

/// Whether keramics_encodings has a character encoder for an encoding.
pub uninterp spec fn encoder_supported(encoding: CharacterEncoding) -> bool;

/// Whether an encoding is UTF-8.
pub uninterp spec fn is_utf8(encoding: CharacterEncoding) -> bool;

/// Whether an encoding is MacTurkish.
pub uninterp spec fn is_mac_turkish(encoding: CharacterEncoding) -> bool;

/// Whether an encoding is Windows 949.
pub uninterp spec fn is_windows949(encoding: CharacterEncoding) -> bool;

/// Whether the encoder of keramics_encodings for an encoding reads past the end of one of its
/// tables on a code point: MacTurkish on U+2038 to U+2047, whose table from U+2010 holds 40
/// entries, and Windows 949 on U+33E0 to U+33FF, whose table from U+3380 holds 96 entries.
pub open spec fn encoder_overruns(encoding: CharacterEncoding, code_point: u32) -> bool {
    ||| is_mac_turkish(encoding) && 0x2038 <= code_point < 0x2048
    ||| is_windows949(encoding) && 0x33e0 <= code_point < 0x3400
}

/// Whether no code point makes the encoder for an encoding read past the end of a table.
pub open spec fn encodes_within_tables(encoding: CharacterEncoding, code_points: Seq<u32>) -> bool {
    forall|i: int| 0 <= i < code_points.len() ==> !encoder_overruns(encoding, #[trigger] code_points[i])
}

/// Whether an encoding is UTF-8, the one UTF-8 encoding there is.
pub open spec fn is_the_utf8(encoding: CharacterEncoding) -> bool {
    &&& is_utf8(encoding)
    &&& forall|other: CharacterEncoding| is_utf8(other) ==> other == encoding
}

/// What the character decoder of keramics_encodings makes of bytes in an encoding: the code
/// points, or the text of the first error.
pub uninterp spec fn decoded(encoding: CharacterEncoding, bytes: Seq<u8>) -> Result<
    Seq<u32>,
    Seq<char>,
>;

/// What the character encoder of keramics_encodings makes of code points in an encoding: the
/// bytes produced up to the first error, and whether there was none.
pub uninterp spec fn encoded(encoding: CharacterEncoding, code_points: Seq<u32>) -> (Seq<u8>, bool);

/// Whether `keramics_encodings::new_character_decoder` has a decoder for an encoding: its
/// source has none (`todo!()`) for the Mac Chinese, Hebrew, Japanese and Korean, UCS-2,
/// UTF-16, UTF-32 and Windows 950 encodings.
#[verifier::external_body]
fn has_decoder(encoding: &CharacterEncoding) -> (supported: bool)
    ensures
        supported == decoder_supported(*encoding),
{
    match encoding {
        CharacterEncoding::MacChineseSimplified => false,
        CharacterEncoding::MacChineseTraditional => false,
        CharacterEncoding::MacHebrew => false,
        CharacterEncoding::MacJapanese => false,
        CharacterEncoding::MacKorean => false,
        CharacterEncoding::Ucs2 => false,
        CharacterEncoding::Utf16BigEndian => false,
        CharacterEncoding::Utf16LittleEndian => false,
        CharacterEncoding::Utf32BigEndian => false,
        CharacterEncoding::Utf32LittleEndian => false,
        CharacterEncoding::Windows950 => false,
        _ => true,
    }
}

/// Whether `keramics_encodings::new_character_encoder` has an encoder for an encoding: its
/// source has none (`todo!()`) for the encodings without a decoder, nor for UTF-8.
#[verifier::external_body]
fn has_encoder(encoding: &CharacterEncoding) -> (supported: bool)
    ensures
        supported == encoder_supported(*encoding),
{
    match encoding {
        CharacterEncoding::MacChineseSimplified => false,
        CharacterEncoding::MacChineseTraditional => false,
        CharacterEncoding::MacHebrew => false,
        CharacterEncoding::MacJapanese => false,
        CharacterEncoding::MacKorean => false,
        CharacterEncoding::Ucs2 => false,
        CharacterEncoding::Utf16BigEndian => false,
        CharacterEncoding::Utf16LittleEndian => false,
        CharacterEncoding::Utf32BigEndian => false,
        CharacterEncoding::Utf32LittleEndian => false,
        CharacterEncoding::Utf8 => false,
        CharacterEncoding::Windows950 => false,
        _ => true,
    }
}

/// Whether an encoding is `CharacterEncoding::Utf8` (its derived `PartialEq`).
#[verifier::external_body]
fn is_utf8_encoding(encoding: &CharacterEncoding) -> (utf8: bool)
    ensures
        utf8 == is_utf8(*encoding),
        utf8 ==> forall|other: CharacterEncoding| is_utf8(other) ==> other == *encoding,
{
    *encoding == CharacterEncoding::Utf8
}

/// Whether an encoding is `CharacterEncoding::MacTurkish` (its derived `PartialEq`).
#[verifier::external_body]
fn is_mac_turkish_encoding(encoding: &CharacterEncoding) -> (mac_turkish: bool)
    ensures
        mac_turkish == is_mac_turkish(*encoding),
{
    *encoding == CharacterEncoding::MacTurkish
}

/// Whether an encoding is `CharacterEncoding::Windows949` (its derived `PartialEq`).
#[verifier::external_body]
fn is_windows949_encoding(encoding: &CharacterEncoding) -> (windows949: bool)
    ensures
        windows949 == is_windows949(*encoding),
{
    *encoding == CharacterEncoding::Windows949
}

/// Determines if an encoding is UTF-8.
pub fn is_utf8_character_encoding(encoding: &CharacterEncoding) -> (utf8: bool)
    ensures
        utf8 == is_utf8(*encoding),
{
    is_utf8_encoding(encoding)
}

/// Determines if the encoder of keramics_encodings for an encoding can take code points
/// without reading past the end of one of its tables.
pub fn encodes_within_encoder_tables(encoding: &CharacterEncoding, code_points: &[u32]) -> (within:
    bool)
    ensures
        within == encodes_within_tables(*encoding, code_points@),
{
    let mac_turkish: bool = is_mac_turkish_encoding(encoding);
    let windows949: bool = is_windows949_encoding(encoding);
    let mut index: usize = 0;
    while index < code_points.len()
        invariant
            index <= code_points@.len(),
            mac_turkish == is_mac_turkish(*encoding),
            windows949 == is_windows949(*encoding),
            forall|i: int| 0 <= i < index ==> !encoder_overruns(*encoding, #[trigger] code_points@[i]),
        decreases code_points@.len() - index,
    {
        let code_point: u32 = code_points[index];
        if (mac_turkish && 0x2038 <= code_point && code_point < 0x2048) || (windows949 && 0x33e0
            <= code_point && code_point < 0x3400) {
            assert(encoder_overruns(*encoding, code_points@[index as int]));
            return false;
        }
        index += 1;
    }
    true
}

/// The encoding `CharacterEncoding::Utf8`, the one UTF-8 variant of the enum.
#[verifier::external_body]
fn utf8_encoding() -> (encoding: CharacterEncoding)
    ensures
        is_utf8(encoding),
        forall|other: CharacterEncoding| is_utf8(other) ==> other == encoding,
{
    CharacterEncoding::Utf8
}

/// Whether two encodings are the same (the derived `PartialEq` of the fieldless
/// `CharacterEncoding`, which compares variants).
#[verifier::external_body]
fn same_encoding(first: &CharacterEncoding, second: &CharacterEncoding) -> (same: bool)
    ensures
        same == (*first == *second),
{
    first == second
}

/// The derived `Clone` of the fieldless `CharacterEncoding` gives the same variant.
pub assume_specification[ <CharacterEncoding as Clone>::clone ](
    encoding: &CharacterEncoding,
) -> (copy: CharacterEncoding)
    ensures
        copy == *encoding,
;

/// Decodes bytes with `keramics_encodings::new_character_decoder`: the code points of all its
/// results, or the text of its first error.
#[verifier::external_body]
fn decode_bytes(encoding: &CharacterEncoding, bytes: &[u8]) -> (result: Result<Vec<u32>, String>)
    requires
        decoder_supported(*encoding),
    ensures
        match result {
            Ok(code_points) => decoded(*encoding, bytes@) == Ok::<Seq<u32>, Seq<char>>(
                code_points@,
            ),
            Err(text) => decoded(*encoding, bytes@) == Err::<Seq<u32>, Seq<char>>(text@),
        },
{
    match new_character_decoder(encoding, bytes).collect::<Result<Vec<Vec<u32>>, _>>() {
        Ok(parts) => Ok(parts.concat()),
        Err(error) => Err(error.to_string()),
    }
}

/// Encodes code points with `keramics_encodings::new_character_encoder`: the bytes of its
/// results up to its first error, and whether there was none. Its encoders panic on the code
/// points that `encoder_overruns` names, which are left out.
#[verifier::external_body]
fn encode_code_points(encoding: &CharacterEncoding, code_points: &[u32]) -> (result: (
    Vec<u8>,
    bool,
))
    requires
        encoder_supported(*encoding),
        encodes_within_tables(*encoding, code_points@),
    ensures
        (result.0@, result.1) == encoded(*encoding, code_points@),
{
    let mut bytes: Vec<u8> = Vec::new();
    for part in new_character_encoder(encoding, code_points) {
        match part {
            Ok(slice) => bytes.extend_from_slice(&slice),
            Err(_) => return (bytes, false),
        }
    }
    (bytes, true)
}

/// Reason why a byte string operation fails.
#[derive(Clone, Copy, Debug, Eq, PartialEq, Structural)]
pub enum ByteStringError {
    /// The bytes do not decode in their encoding.
    UnableToDecode,
    /// The code points do not all encode in the target encoding.
    UnableToEncode,
    /// The UTF-16 string does not decode.
    UnableToDecodeUtf16,
}

/// Byte string.
#[derive(Clone, Debug, Eq, Hash, Ord, PartialOrd)]
pub struct ByteString {
    /// Character encoding of the bytes.
    pub encoding: CharacterEncoding,
    /// Bytes of the string.
    pub elements: Vec<u8>,
}

/// Copies the bytes of a slice up to the first zero byte.
pub fn bytes_before_zero(slice: &[u8]) -> (bytes: Vec<u8>)
    ensures
        bytes@ == prefix_before(slice@, 0u8),
{
    let mut bytes: Vec<u8> = Vec::new();
    let mut index: usize = 0;
    while index < slice.len()
        invariant
            index <= slice@.len(),
            bytes@ == slice@.take(index as int),
            forall|j: int| 0 <= j < index ==> slice@[j] != 0u8,
        decreases slice@.len() - index,
    {
        if slice[index] == 0 {
            proof {
                lemma_prefix_before(slice@, 0u8, index as int);
            }
            return bytes;
        }
        bytes.push(slice[index]);
        index += 1;
        assert(bytes@ =~= slice@.take(index as int));
    }
    proof {
        lemma_prefix_before_absent(slice@, 0u8);
    }
    assert(slice@.take(index as int) =~= slice@);
    bytes
}

/// Appends the bytes of a slice to a vector.
fn append_bytes(elements: &mut Vec<u8>, bytes: &[u8])
    ensures
        final(elements)@ == old(elements)@ + bytes@,
{
    let mut index: usize = 0;
    while index < bytes.len()
        invariant
            index <= bytes@.len(),
            elements@ == old(elements)@ + bytes@.take(index as int),
        decreases bytes@.len() - index,
    {
        elements.push(bytes[index]);
        index += 1;
        assert(elements@ =~= old(elements)@ + bytes@.take(index as int));
    }
    assert(bytes@.take(index as int) =~= bytes@);
}

/// Text of a code point when a byte string is displayed: a backslash doubled, another
/// character as itself, and a value that is no character as "\{" with at least four lower
/// case hexadecimal digits and "}".
pub open spec fn code_point_text(code_point: u32) -> Seq<char> {
    if is_scalar_value(code_point) {
        if code_point == 0x5c {
            seq!['\\', '\\']
        } else {
            seq![code_point as char]
        }
    } else {
        seq!['\\', '{'] + lower_hex(code_point as nat, 4) + seq!['}']
    }
}

/// Text of code points when a byte string is displayed.
pub open spec fn code_points_text(code_points: Seq<u32>) -> Seq<char>
    decreases code_points.len(),
{
    if code_points.len() == 0 {
        Seq::empty()
    } else {
        code_points_text(code_points.drop_last()) + code_point_text(code_points.last())
    }
}

/// Text of a byte string: its decoded code points, or the text of the decoding error.
pub open spec fn byte_string_text(encoding: CharacterEncoding, bytes: Seq<u8>) -> Seq<char> {
    match decoded(encoding, bytes) {
        Ok(code_points) => code_points_text(code_points),
        Err(text) => text,
    }
}

} // verus!

verus! {

impl ByteString {
    /// Creates a new empty UTF-8 byte string.
    pub fn new() -> (byte_string: Self)
        ensures
            is_the_utf8(byte_string.encoding),
            byte_string.elements@ == Seq::<u8>::empty(),
    {
        ByteString { encoding: utf8_encoding(), elements: Vec::new() }
    }

    /// Creates a new empty byte string in an encoding.
    pub fn new_with_encoding(encoding: &CharacterEncoding) -> (byte_string: Self)
        ensures
            byte_string.encoding == *encoding,
            byte_string.elements@ == Seq::<u8>::empty(),
    {
        ByteString { encoding: encoding.clone(), elements: Vec::new() }
    }

    /// Determines if keramics_encodings has a decoder for the encoding of the byte string.
    pub fn has_character_decoder(&self) -> (supported: bool)
        ensures
            supported == decoder_supported(self.encoding),
    {
        has_decoder(&self.encoding)
    }

    /// Determines if keramics_encodings has an encoder for the encoding of the byte string.
    pub fn has_character_encoder(&self) -> (supported: bool)
        ensures
            supported == encoder_supported(self.encoding),
    {
        has_encoder(&self.encoding)
    }

    /// Decodes the byte string into code points.
    pub fn decode(&self) -> (result: Result<Vec<u32>, ByteStringError>)
        requires
            decoder_supported(self.encoding),
        ensures
            match decoded(self.encoding, self.elements@) {
                Ok(code_points) => result matches Ok(values) && values@ == code_points,
                Err(_) => result == Err::<Vec<u32>, ByteStringError>(
                    ByteStringError::UnableToDecode,
                ),
            },
    {
        match decode_bytes(&self.encoding, self.elements.as_slice()) {
            Ok(code_points) => Ok(code_points),
            Err(_) => Err(ByteStringError::UnableToDecode),
        }
    }

    /// Appends code points, encoded in the encoding of the byte string. Where a code point
    /// does not encode, the bytes before it stay appended and the result is an error.
    pub fn extend_from_codepoints(&mut self, code_points: &[u32]) -> (result: Result<
        (),
        ByteStringError,
    >)
        requires
            encoder_supported(old(self).encoding),
            encodes_within_tables(old(self).encoding, code_points@),
        ensures
            final(self).encoding == old(self).encoding,
            final(self).elements@ == old(self).elements@ + encoded(
                old(self).encoding,
                code_points@,
            ).0,
            result == (if encoded(old(self).encoding, code_points@).1 {
                Ok::<(), ByteStringError>(())
            } else {
                Err::<(), ByteStringError>(ByteStringError::UnableToEncode)
            }),
    {
        let (bytes, complete) = encode_code_points(&self.encoding, code_points);
        append_bytes(&mut self.elements, bytes.as_slice());
        if complete {
            Ok(())
        } else {
            Err(ByteStringError::UnableToEncode)
        }
    }

    /// Appends another byte string: its bytes where both have the same encoding, otherwise its
    /// code points encoded in the encoding of this byte string.
    pub fn extend(&mut self, byte_string: &ByteString) -> (result: Result<(), ByteStringError>)
        requires
            old(self).encoding != byte_string.encoding ==> decoder_supported(byte_string.encoding)
                && encoder_supported(old(self).encoding),
            old(self).encoding != byte_string.encoding ==> (decoded(
                byte_string.encoding,
                byte_string.elements@,
            ) matches Ok(code_points) ==> encodes_within_tables(old(self).encoding, code_points)),
        ensures
            final(self).encoding == old(self).encoding,
            old(self).encoding == byte_string.encoding ==> {
                &&& final(self).elements@ == old(self).elements@ + byte_string.elements@
                &&& result is Ok
            },
            old(self).encoding != byte_string.encoding ==> match decoded(
                byte_string.encoding,
                byte_string.elements@,
            ) {
                Ok(code_points) => {
                    &&& final(self).elements@ == old(self).elements@ + encoded(
                        old(self).encoding,
                        code_points,
                    ).0
                    &&& result == (if encoded(old(self).encoding, code_points).1 {
                        Ok::<(), ByteStringError>(())
                    } else {
                        Err::<(), ByteStringError>(ByteStringError::UnableToEncode)
                    })
                },
                Err(_) => {
                    &&& final(self).elements@ == old(self).elements@
                    &&& result == Err::<(), ByteStringError>(ByteStringError::UnableToDecode)
                },
            },
    {
        if same_encoding(&self.encoding, &byte_string.encoding) {
            append_bytes(&mut self.elements, byte_string.elements.as_slice());
            Ok(())
        } else {
            let code_points: Vec<u32> = match byte_string.decode() {
                Ok(code_points) => code_points,
                Err(error) => return Err(error),
            };
            self.extend_from_codepoints(code_points.as_slice())
        }
    }

    /// Creates the byte string in another encoding: a copy where the encoding is the same,
    /// otherwise the code points encoded in the other encoding.
    pub fn encode(&self, encoding: &CharacterEncoding) -> (result: Result<Self, ByteStringError>)
        requires
            self.encoding != *encoding ==> decoder_supported(self.encoding) && encoder_supported(
                *encoding,
            ),
            self.encoding != *encoding ==> (decoded(self.encoding, self.elements@) matches Ok(
                code_points,
            ) ==> encodes_within_tables(*encoding, code_points)),
        ensures
            self.encoding == *encoding ==> (result matches Ok(byte_string) && byte_string.encoding
                == self.encoding && byte_string.elements@ == self.elements@),
            self.encoding != *encoding ==> match decoded(self.encoding, self.elements@) {
                Ok(code_points) => if encoded(*encoding, code_points).1 {
                    result matches Ok(byte_string) && byte_string.encoding == *encoding
                        && byte_string.elements@ == encoded(*encoding, code_points).0
                } else {
                    result == Err::<Self, ByteStringError>(ByteStringError::UnableToEncode)
                },
                Err(_) => result == Err::<Self, ByteStringError>(ByteStringError::UnableToDecode),
            },
    {
        if same_encoding(&self.encoding, encoding) {
            let mut byte_string: ByteString = ByteString::new_with_encoding(encoding);
            append_bytes(&mut byte_string.elements, self.elements.as_slice());
            Ok(byte_string)
        } else {
            let mut byte_string: ByteString = ByteString::new_with_encoding(encoding);
            match byte_string.extend(self) {
                Ok(_) => Ok(byte_string),
                Err(error) => Err(error),
            }
        }
    }

    /// Creates a byte string from a string: its UTF-8 bytes up to the first zero byte for the
    /// UTF-8 encoding, otherwise its characters encoded in the encoding.
    pub fn from_string_with_encoding(encoding: &CharacterEncoding, string: &str) -> (result:
        Result<Self, ByteStringError>)
        requires
            !is_utf8(*encoding) ==> encoder_supported(*encoding),
            !is_utf8(*encoding) ==> encodes_within_tables(*encoding, code_points_of(string@)),
        ensures
            is_utf8(*encoding) ==> (result matches Ok(byte_string) && is_the_utf8(byte_string.encoding)
                && byte_string.elements@ == prefix_before(string.spec_bytes(), 0u8)),
            !is_utf8(*encoding) ==> if encoded(*encoding, code_points_of(string@)).1 {
                result matches Ok(byte_string) && byte_string.encoding == *encoding
                    && byte_string.elements@ == encoded(*encoding, code_points_of(string@)).0
            } else {
                result == Err::<Self, ByteStringError>(ByteStringError::UnableToEncode)
            },
    {
        if is_utf8_encoding(encoding) {
            Ok(ByteString::from_str_bytes(string))
        } else {
            let number_of_characters: usize = string.unicode_len();
            let mut code_points: Vec<u32> = Vec::new();
            let mut index: usize = 0;
            while index < number_of_characters
                invariant
                    number_of_characters == string@.len(),
                    index <= number_of_characters,
                    code_points@ == code_points_of(string@.take(index as int)),
                decreases number_of_characters - index,
            {
                let character: char = string.get_char(index);
                code_points.push(character as u32);
                index += 1;
                assert(code_points@ =~= code_points_of(string@.take(index as int)));
            }
            assert(string@.take(index as int) =~= string@);
            let mut byte_string: ByteString = ByteString::new_with_encoding(encoding);
            match byte_string.extend_from_codepoints(code_points.as_slice()) {
                Ok(_) => Ok(byte_string),
                Err(error) => Err(error),
            }
        }
    }

    /// Creates a byte string from a UCS-2 string, its code points encoded in an encoding.
    pub fn from_ucs2_string_with_encoding(
        encoding: &CharacterEncoding,
        ucs2_string: &Ucs2String,
    ) -> (result: Result<Self, ByteStringError>)
        requires
            encoder_supported(*encoding),
            encodes_within_tables(*encoding, ucs2_string@.map_values(|element: u16| element as u32)),
        ensures
            ({
                let code_points: Seq<u32> = ucs2_string@.map_values(|element: u16| element as u32);
                if encoded(*encoding, code_points).1 {
                    result matches Ok(byte_string) && byte_string.encoding == *encoding
                        && byte_string.elements@ == encoded(*encoding, code_points).0
                } else {
                    result == Err::<Self, ByteStringError>(ByteStringError::UnableToEncode)
                }
            }),
    {
        let mut byte_string: ByteString = ByteString::new_with_encoding(encoding);
        let code_points: Vec<u32> = ucs2_string.decode();
        match byte_string.extend_from_codepoints(code_points.as_slice()) {
            Ok(_) => Ok(byte_string),
            Err(error) => Err(error),
        }
    }

    /// Creates a byte string from a UTF-16 string, its code points encoded in an encoding.
    pub fn from_utf16_string_with_encoding(
        encoding: &CharacterEncoding,
        utf16_string: &Utf16String,
    ) -> (result: Result<Self, ByteStringError>)
        requires
            encoder_supported(*encoding),
            decode_utf16(utf16_string@) matches Ok(code_points) ==> encodes_within_tables(
                *encoding,
                code_points,
            ),
        ensures
            match decode_utf16(utf16_string@) {
                Ok(code_points) => if encoded(*encoding, code_points).1 {
                    result matches Ok(byte_string) && byte_string.encoding == *encoding
                        && byte_string.elements@ == encoded(*encoding, code_points).0
                } else {
                    result == Err::<Self, ByteStringError>(ByteStringError::UnableToEncode)
                },
                Err(_) => result == Err::<Self, ByteStringError>(
                    ByteStringError::UnableToDecodeUtf16,
                ),
            },
    {
        let mut byte_string: ByteString = ByteString::new_with_encoding(encoding);
        let code_points: Vec<u32> = match utf16_string.decode() {
            Ok(code_points) => code_points,
            Err(_) => return Err(ByteStringError::UnableToDecodeUtf16),
        };
        match byte_string.extend_from_codepoints(code_points.as_slice()) {
            Ok(_) => Ok(byte_string),
            Err(error) => Err(error),
        }
    }

    /// Determines if the byte string is empty.
    pub fn is_empty(&self) -> (empty: bool)
        ensures
            empty == (self.elements@.len() == 0),
    {
        self.elements.len() == 0
    }

    /// Retrieves the number of bytes.
    pub fn len(&self) -> (length: usize)
        ensures
            length == self.elements@.len(),
    {
        self.elements.len()
    }

    /// Appends the bytes of data up to the first zero byte.
    pub fn read_data(&mut self, data: &[u8])
        ensures
            final(self).encoding == old(self).encoding,
            final(self).elements@ == old(self).elements@ + prefix_before(data@, 0u8),
    {
        let bytes: Vec<u8> = bytes_before_zero(data);
        append_bytes(&mut self.elements, bytes.as_slice());
    }

    /// Creates a UTF-8 byte string from the bytes of a slice up to the first zero byte.
    pub fn from_bytes(slice: &[u8]) -> (byte_string: Self)
        ensures
            is_the_utf8(byte_string.encoding),
            byte_string.elements@ == prefix_before(slice@, 0u8),
    {
        ByteString { encoding: utf8_encoding(), elements: bytes_before_zero(slice) }
    }

    /// Creates a UTF-8 byte string from the bytes of a string up to the first zero byte.
    pub fn from_str_bytes(string: &str) -> (byte_string: Self)
        ensures
            is_the_utf8(byte_string.encoding),
            byte_string.elements@ == prefix_before(string.spec_bytes(), 0u8),
    {
        ByteString::from_bytes(string.as_bytes())
    }

    /// Determines if the bytes equal those of a slice.
    pub fn equals_bytes(&self, slice: &[u8]) -> (equal: bool)
        ensures
            equal == (self.elements@ == slice@),
    {
        if self.elements.len() != slice.len() {
            return false;
        }
        let mut index: usize = 0;
        while index < slice.len()
            invariant
                index <= slice@.len(),
                self.elements@.len() == slice@.len(),
                forall|j: int| 0 <= j < index ==> self.elements@[j] == slice@[j],
            decreases slice@.len() - index,
        {
            if self.elements[index] != slice[index] {
                return false;
            }
            index += 1;
        }
        assert(self.elements@ =~= slice@);
        true
    }

    /// Formats the byte string: its decoded code points, a backslash doubled and a value that
    /// is no character as "\{" with four hexadecimal digits and "}"; or the text of the
    /// decoding error.
    pub fn to_string(&self) -> (text: String)
        requires
            decoder_supported(self.encoding),
        ensures
            text@ == byte_string_text(self.encoding, self.elements@),
    {
        let code_points: Vec<u32> = match decode_bytes(&self.encoding, self.elements.as_slice()) {
            Ok(code_points) => code_points,
            Err(text) => return text,
        };
        let mut text: String = String::new();
        let mut index: usize = 0;
        while index < code_points.len()
            invariant
                index <= code_points@.len(),
                text@ == code_points_text(code_points@.take(index as int)),
            decreases code_points@.len() - index,
        {
            let code_point: u32 = code_points[index];
            match char_from_u32(code_point) {
                Some(character) => {
                    if code_point == 0x5c {
                        push_char(&mut text, '\\');
                        push_char(&mut text, '\\');
                    } else {
                        push_char(&mut text, character);
                    }
                },
                None => {
                    push_char(&mut text, '\\');
                    push_char(&mut text, '{');
                    push_lower_hex(&mut text, code_point as u64, 4);
                    push_char(&mut text, '}');
                },
            }
            proof {
                let taken: Seq<u32> = code_points@.take(index + 1);
                assert(taken.drop_last() =~= code_points@.take(index as int));
                assert(taken.last() == code_point);
            }
            index += 1;
        }
        assert(code_points@.take(index as int) =~= code_points@);
        text
    }
}

impl PartialEq for ByteString {
    fn eq(&self, other: &ByteString) -> (equal: bool) {
        same_encoding(&self.encoding, &other.encoding) && self.equals_bytes(
            other.elements.as_slice(),
        )
    }
}

impl vstd::std_specs::cmp::PartialEqSpecImpl for ByteString {
    open spec fn obeys_eq_spec() -> bool {
        true
    }

    open spec fn eq_spec(&self, other: &ByteString) -> bool {
        self.encoding == other.encoding && self.elements@ == other.elements@
    }
}

impl PartialEq<&[u8]> for ByteString {
    fn eq(&self, slice: &&[u8]) -> (equal: bool) {
        self.equals_bytes(*slice)
    }
}

impl vstd::std_specs::cmp::PartialEqSpecImpl<&[u8]> for ByteString {
    open spec fn obeys_eq_spec() -> bool {
        true
    }

    open spec fn eq_spec(&self, slice: &&[u8]) -> bool {
        self.elements@ == slice@
    }
}

impl PartialEq<str> for ByteString {
    fn eq(&self, string: &str) -> (equal: bool) {
        self.equals_bytes(string.as_bytes())
    }
}

impl vstd::std_specs::cmp::PartialEqSpecImpl<str> for ByteString {
    open spec fn obeys_eq_spec() -> bool {
        true
    }

    open spec fn eq_spec(&self, string: &str) -> bool {
        self.elements@ == string.spec_bytes()
    }
}

impl PartialEq<&str> for ByteString {
    fn eq(&self, string: &&str) -> (equal: bool) {
        self.equals_bytes((*string).as_bytes())
    }
}

impl vstd::std_specs::cmp::PartialEqSpecImpl<&str> for ByteString {
    open spec fn obeys_eq_spec() -> bool {
        true
    }

    open spec fn eq_spec(&self, string: &&str) -> bool {
        self.elements@ == (*string).spec_bytes()
    }
}

impl From<&[u8]> for ByteString {
    fn from(slice: &[u8]) -> (byte_string: ByteString)
        ensures
            is_the_utf8(byte_string.encoding),
            byte_string.elements@ == prefix_before(slice@, 0u8),
    {
        ByteString::from_bytes(slice)
    }
}

impl vstd::std_specs::convert::FromSpecImpl<&[u8]> for ByteString {
    open spec fn obeys_from_spec() -> bool {
        false
    }

    open spec fn from_spec(slice: &[u8]) -> ByteString {
        choose|byte_string: ByteString| is_the_utf8(byte_string.encoding)
            && byte_string.elements@ == prefix_before(slice@, 0u8)
    }
}

impl From<&str> for ByteString {
    fn from(string: &str) -> (byte_string: ByteString)
        ensures
            is_the_utf8(byte_string.encoding),
            byte_string.elements@ == prefix_before(string.spec_bytes(), 0u8),
    {
        ByteString::from_str_bytes(string)
    }
}

impl vstd::std_specs::convert::FromSpecImpl<&str> for ByteString {
    open spec fn obeys_from_spec() -> bool {
        false
    }

    open spec fn from_spec(string: &str) -> ByteString {
        choose|byte_string: ByteString| is_the_utf8(byte_string.encoding)
            && byte_string.elements@ == prefix_before(string.spec_bytes(), 0u8)
    }
}

impl From<&String> for ByteString {
    fn from(string: &String) -> (byte_string: ByteString)
        ensures
            is_the_utf8(byte_string.encoding),
            byte_string.elements@ == prefix_before(vstd::utf8::encode_utf8(string@), 0u8),
    {
        ByteString::from_str_bytes(string.as_str())
    }
}

impl vstd::std_specs::convert::FromSpecImpl<&String> for ByteString {
    open spec fn obeys_from_spec() -> bool {
        false
    }

    open spec fn from_spec(string: &String) -> ByteString {
        choose|byte_string: ByteString| is_the_utf8(byte_string.encoding)
            && byte_string.elements@ == prefix_before(vstd::utf8::encode_utf8(string@), 0u8)
    }
}

/// A character other than the backslash is displayed as itself.
pub proof fn law_code_point_text_of_character(character: char)
    requires
        character != '\\',
    ensures
        code_point_text(character as u32) == seq![character],
{
    assert(is_scalar_value(character as u32));
}

/// Text without backslashes is displayed as itself when its code points are.
pub proof fn law_code_points_text_of_characters(chars: Seq<char>)
    requires
        !chars.contains('\\'),
    ensures
        code_points_text(code_points_of(chars)) == chars,
    decreases chars.len(),
{
    if chars.len() > 0 {
        let init: Seq<char> = chars.drop_last();
        assert(!init.contains('\\')) by {
            if init.contains('\\') {
                let index: int = choose|index: int| 0 <= index < init.len() && init[index] == '\\';
                assert(chars[index] == '\\');
            }
        }
        law_code_points_text_of_characters(init);
        assert(code_points_of(chars).drop_last() =~= code_points_of(init));
        assert(chars[chars.len() - 1] != '\\');
        law_code_point_text_of_character(chars.last());
        assert(chars =~= init + seq![chars.last()]);
    }
}

} // verus!
