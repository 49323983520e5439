//! Conversions of byte values in big-endian or little-endian order into integers.

use vstd::prelude::*;

verus! {

/// Value of the two bytes at `i` read in big-endian order.
pub open spec fn be2(s: Seq<u8>, i: int) -> int {
    s[i] * 256 + s[i + 1]
}

/// Value of the four bytes at `i` read in big-endian order.
pub open spec fn be4(s: Seq<u8>, i: int) -> int {
    be2(s, i) * 0x1_0000 + be2(s, i + 2)
}

/// Value of the eight bytes at `i` read in big-endian order.
pub open spec fn be8(s: Seq<u8>, i: int) -> int {
    be4(s, i) * 0x1_0000_0000 + be4(s, i + 4)
}

/// Value of the two bytes at `i` read in little-endian order.
pub open spec fn le2(s: Seq<u8>, i: int) -> int {
    s[i] + s[i + 1] * 256
}

/// Value of the four bytes at `i` read in little-endian order.
pub open spec fn le4(s: Seq<u8>, i: int) -> int {
    le2(s, i) + le2(s, i + 2) * 0x1_0000
}

/// Value of the eight bytes at `i` read in little-endian order.
pub open spec fn le8(s: Seq<u8>, i: int) -> int {
    le4(s, i) + le4(s, i + 4) * 0x1_0000_0000
}

/// Two's complement reading of an unsigned value of `bits` bits.
pub open spec fn signed(v: int, bits: nat) -> int {
    if v < vstd::arithmetic::power2::pow2((bits - 1) as nat) {
        v
    } else {
        v - vstd::arithmetic::power2::pow2(bits)
    }
}

/// Copies the byte values at `offset` in big-endian order to a 16-bit unsigned integer.
pub fn bytes_to_u16_be(data: &[u8], offset: usize) -> (value: u16)
    requires
        offset + 2 <= data@.len(),
    ensures
        value == be2(data@, offset as int),
{
    (data[offset] as u16) * 256 + (data[offset + 1] as u16)
}

/// Copies the byte values at `offset` in little-endian order to a 16-bit unsigned integer.
pub fn bytes_to_u16_le(data: &[u8], offset: usize) -> (value: u16)
    requires
        offset + 2 <= data@.len(),
    ensures
        value == le2(data@, offset as int),
{
    (data[offset] as u16) + (data[offset + 1] as u16) * 256
}

/// Copies the byte values at `offset` in big-endian order to a 32-bit unsigned integer.
pub fn bytes_to_u32_be(data: &[u8], offset: usize) -> (value: u32)
    requires
        offset + 4 <= data@.len(),
    ensures
        value == be4(data@, offset as int),
{
    let data_size: usize = data.len();
    let upper: u16 = bytes_to_u16_be(data, offset);
    let lower: u16 = bytes_to_u16_be(data, offset + 2);
    (upper as u32) * 0x1_0000 + (lower as u32)
}

/// Copies the byte values at `offset` in little-endian order to a 32-bit unsigned integer.
pub fn bytes_to_u32_le(data: &[u8], offset: usize) -> (value: u32)
    requires
        offset + 4 <= data@.len(),
    ensures
        value == le4(data@, offset as int),
{
    let data_size: usize = data.len();
    let lower: u16 = bytes_to_u16_le(data, offset);
    let upper: u16 = bytes_to_u16_le(data, offset + 2);
    (lower as u32) + (upper as u32) * 0x1_0000
}

/// Copies the byte values at `offset` in big-endian order to a 64-bit unsigned integer.
pub fn bytes_to_u64_be(data: &[u8], offset: usize) -> (value: u64)
    requires
        offset + 8 <= data@.len(),
    ensures
        value == be8(data@, offset as int),
{
    let data_size: usize = data.len();
    let upper: u32 = bytes_to_u32_be(data, offset);
    let lower: u32 = bytes_to_u32_be(data, offset + 4);
    (upper as u64) * 0x1_0000_0000 + (lower as u64)
}

/// Copies the byte values at `offset` in little-endian order to a 64-bit unsigned integer.
pub fn bytes_to_u64_le(data: &[u8], offset: usize) -> (value: u64)
    requires
        offset + 8 <= data@.len(),
    ensures
        value == le8(data@, offset as int),
{
    let data_size: usize = data.len();
    let lower: u32 = bytes_to_u32_le(data, offset);
    let upper: u32 = bytes_to_u32_le(data, offset + 4);
    (lower as u64) + (upper as u64) * 0x1_0000_0000
}

fn u16_to_i16(v: u16) -> (r: i16)
    ensures
        r == signed(v as int, 16),
{
    proof {
        vstd::arithmetic::power2::lemma2_to64();
        vstd::arithmetic::power2::lemma2_to64_rest();
    }
    if v < 0x8000 {
        v as i16
    } else {
        ((v as i32) - 0x1_0000) as i16
    }
}

fn u32_to_i32(v: u32) -> (r: i32)
    ensures
        r == signed(v as int, 32),
{
    proof {
        vstd::arithmetic::power2::lemma2_to64();
        vstd::arithmetic::power2::lemma2_to64_rest();
    }
    if v < 0x8000_0000 {
        v as i32
    } else {
        ((v as i64) - 0x1_0000_0000) as i32
    }
}

fn u64_to_i64(v: u64) -> (r: i64)
    ensures
        r == signed(v as int, 64),
{
    proof {
        vstd::arithmetic::power2::lemma2_to64();
        vstd::arithmetic::power2::lemma2_to64_rest();
    }
    if v < 0x8000_0000_0000_0000 {
        v as i64
    } else {
        ((v as i128) - 0x1_0000_0000_0000_0000) as i64
    }
}

/// Copies the byte values at `offset` in big-endian order to a 16-bit signed integer.
pub fn bytes_to_i16_be(data: &[u8], offset: usize) -> (value: i16)
    requires
        offset + 2 <= data@.len(),
    ensures
        value == signed(be2(data@, offset as int), 16),
{
    u16_to_i16(bytes_to_u16_be(data, offset))
}

/// Copies the byte values at `offset` in little-endian order to a 16-bit signed integer.
pub fn bytes_to_i16_le(data: &[u8], offset: usize) -> (value: i16)
    requires
        offset + 2 <= data@.len(),
    ensures
        value == signed(le2(data@, offset as int), 16),
{
    u16_to_i16(bytes_to_u16_le(data, offset))
}

/// Copies the byte values at `offset` in big-endian order to a 32-bit signed integer.
pub fn bytes_to_i32_be(data: &[u8], offset: usize) -> (value: i32)
    requires
        offset + 4 <= data@.len(),
    ensures
        value == signed(be4(data@, offset as int), 32),
{
    u32_to_i32(bytes_to_u32_be(data, offset))
}

/// Copies the byte values at `offset` in little-endian order to a 32-bit signed integer.
pub fn bytes_to_i32_le(data: &[u8], offset: usize) -> (value: i32)
    requires
        offset + 4 <= data@.len(),
    ensures
        value == signed(le4(data@, offset as int), 32),
{
    u32_to_i32(bytes_to_u32_le(data, offset))
}

/// Copies the byte values at `offset` in big-endian order to a 64-bit signed integer.
pub fn bytes_to_i64_be(data: &[u8], offset: usize) -> (value: i64)
    requires
        offset + 8 <= data@.len(),
    ensures
        value == signed(be8(data@, offset as int), 64),
{
    u64_to_i64(bytes_to_u64_be(data, offset))
}

/// Copies the byte values at `offset` in little-endian order to a 64-bit signed integer.
pub fn bytes_to_i64_le(data: &[u8], offset: usize) -> (value: i64)
    requires
        offset + 8 <= data@.len(),
    ensures
        value == signed(le8(data@, offset as int), 64),
{
    u64_to_i64(bytes_to_u64_le(data, offset))
}

} // verus!

verus! {

/// Copy of a byte slice.
pub fn copy_bytes(data: &[u8]) -> (copy: Vec<u8>)
    ensures
        copy@ == data@,
{
    let mut copy: Vec<u8> = Vec::new();
    let mut index: usize = 0;
    while index < data.len()
        invariant
            index <= data.len(),
            copy@ == data@.take(index as int),
        decreases data.len() - index,
    {
        copy.push(data[index]);
        index += 1;
        assert(copy@ =~= data@.take(index as int));
    }
    assert(data@.take(index as int) =~= data@);
    copy
}

} // verus!
