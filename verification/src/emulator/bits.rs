//! Arithmetic readings of machine words, and the bit-level facts that tie
//! the shift-and-mask code of the simulator to them.

use vstd::prelude::*;

verus! {

/// The 32-bit word that is congruent to `x` modulo 2^32.
pub open spec fn wrap32(x: int) -> u32 {
    (x % 0x1_0000_0000) as u32
}

/// Reduction modulo 2^32 keeps a number that fits, takes 2^32 off a sum
/// that overflowed once and adds 2^32 to a difference that went below
/// zero: arithmetic on words wraps around.
pub proof fn lemma_wrap32(x: int)
    ensures
        0 <= x < 0x1_0000_0000 ==> wrap32(x) == x,
        0x1_0000_0000 <= x < 0x2_0000_0000 ==> wrap32(x) == x - 0x1_0000_0000,
        -0x1_0000_0000 <= x < 0 ==> wrap32(x) == x + 0x1_0000_0000,
{
}

/// The two's complement reading of `u`, a value below `modulus`: the upper
/// half of the range stands for the negative numbers.
pub open spec fn signed_value(u: int, modulus: int) -> int {
    if 2 * u < modulus {
        u
    } else {
        u - modulus
    }
}

/// The two's complement reading of a 32-bit word.
pub open spec fn signed32(x: u32) -> int {
    signed_value(x as int, 0x1_0000_0000)
}

/// Reinterpreting a word as `i32` gives its two's complement reading.
pub(crate) proof fn lemma_word_as_signed(x: u32)
    ensures
        (x as i32) as int == signed32(x),
{
    assert(x < 0x8000_0000 ==> (x as i32) == x) by (bit_vector);
    assert(x >= 0x8000_0000 ==> (x as i32) == x - 0x1_0000_0000) by (bit_vector);
}

/// Reinterpreting an `i32` as a word reduces it modulo 2^32, and the word
/// reads back as the same signed number.
pub(crate) proof fn lemma_signed_as_word(x: i32)
    ensures
        (x as u32) == wrap32(x as int),
        signed32(x as u32) == x,
{
    assert(x >= 0 ==> (x as u32) == x) by (bit_vector);
    assert(x < 0 ==> (x as u32) == x + 0x1_0000_0000) by (bit_vector);
}

/// Masking a shift amount to its low five bits reduces it modulo 32.
pub(crate) proof fn lemma_shift_amount(x: u32)
    ensures
        x & 0x1F == x % 32,
        x & 0x1F < 32,
{
    assert(x & 0x1F == x % 32) by (bit_vector);
}

/// Two bytes joined by shifting are the little-endian sum of the bytes.
pub(crate) proof fn lemma_half_of_bytes(b0: u8, b1: u8)
    ensures
        ((b1 as u16) << 8 | b0 as u16) == b0 + 0x100 * b1,
{
    assert(((b1 as u16) << 8 | b0 as u16) == b0 + 0x100 * b1) by (bit_vector);
}

/// Four bytes joined by shifting are the little-endian sum of the bytes.
pub(crate) proof fn lemma_word_of_bytes(b0: u8, b1: u8, b2: u8, b3: u8)
    ensures
        ((b3 as u32) << 24 | (b2 as u32) << 16 | (b1 as u32) << 8 | b0 as u32) == b0 + 0x100 * b1
            + 0x1_0000 * b2 + 0x100_0000 * b3,
{
    assert(((b3 as u32) << 24 | (b2 as u32) << 16 | (b1 as u32) << 8 | b0 as u32) == b0 + 0x100
        * b1 + 0x1_0000 * b2 + 0x100_0000 * b3) by (bit_vector);
}

/// The bytes cut out of a 16-bit value by mask and shift are its base-256
/// digits.
pub(crate) proof fn lemma_bytes_of_half(x: u16)
    ensures
        (x & 0x00FF) == x % 0x100,
        (x >> 8) == (x / 0x100) % 0x100,
        (x >> 8) < 0x100,
{
    assert((x & 0x00FF) == x % 0x100 && (x >> 8) == (x / 0x100) % 0x100 && (x >> 8) < 0x100)
        by (bit_vector);
}

/// The bytes cut out of a 32-bit value by mask and shift are its base-256
/// digits.
pub(crate) proof fn lemma_bytes_of_word(x: u32)
    ensures
        (x & 0xFF) == x % 0x100,
        ((x >> 8) & 0xFF) == (x / 0x100) % 0x100,
        ((x >> 16) & 0xFF) == (x / 0x1_0000) % 0x100,
        (x >> 24) == (x / 0x100_0000) % 0x100,
        (x >> 24) < 0x100,
{
    assert((x & 0xFF) == x % 0x100 && ((x >> 8) & 0xFF) == (x / 0x100) % 0x100) by (bit_vector);
    assert(((x >> 16) & 0xFF) == (x / 0x1_0000) % 0x100 && (x >> 24) == (x / 0x100_0000) % 0x100
        && (x >> 24) < 0x100) by (bit_vector);
}

/// The fields that mask and shift cut out of a 16-bit instruction word are
/// its digits in the mixed base 64, 32, 32.
pub(crate) proof fn lemma_fields_16(word: u16)
    ensures
        (word & 0x003F) == word % 64,
        ((word & 0x07C0) >> 6) == (word / 64) % 32,
        ((word & 0xF800) >> 11) == (word / 2048) % 32,
{
    assert((word & 0x003F) == word % 64 && ((word & 0x07C0) >> 6) == (word / 64) % 32 && ((word
        & 0xF800) >> 11) == (word / 2048) % 32) by (bit_vector);
}

/// The fields that mask and shift cut out of a 32-bit instruction word: the
/// low three are digits in the mixed base 64, 32, 32; an arithmetic shift
/// of the word below its sign bit reads the upper bits as a two's
/// complement number.
pub(crate) proof fn lemma_fields_32(word: u32)
    ensures
        (word & 0x0000_003F) == word % 64,
        ((word & 0x0000_07C0) >> 6) == (word / 64) % 32,
        ((word & 0x0000_F800) >> 11) == (word / 2048) % 32,
        (((word & 0xFFFF_0000) as i32) >> 16) == signed_value(word as int / 0x1_0000, 0x1_0000),
        (((word & 0xFFFF_F800) as i32) >> 11) == signed_value(word as int / 0x800, 0x20_0000),
{
    assert((word & 0x0000_003F) == word % 64 && ((word & 0x0000_07C0) >> 6) == (word / 64) % 32
        && ((word & 0x0000_F800) >> 11) == (word / 2048) % 32) by (bit_vector);
    assert(word / 0x1_0000 < 0x8000 ==> (((word & 0xFFFF_0000) as i32) >> 16) == word / 0x1_0000)
        by (bit_vector);
    assert(word / 0x1_0000 >= 0x8000 ==> (((word & 0xFFFF_0000) as i32) >> 16) == word / 0x1_0000
        - 0x1_0000) by (bit_vector);
    assert(word / 0x800 < 0x10_0000 ==> (((word & 0xFFFF_F800) as i32) >> 11) == word / 0x800)
        by (bit_vector);
    assert(word / 0x800 >= 0x10_0000 ==> (((word & 0xFFFF_F800) as i32) >> 11) == word / 0x800
        - 0x20_0000) by (bit_vector);
}

/// Widening a byte through `i8` gives the word of its two's complement
/// reading.
pub(crate) proof fn lemma_sign_extend_byte(byte: u8)
    ensures
        (((byte as i8) as i32) as u32) == wrap32(signed_value(byte as int, 0x100)),
{
    assert(byte < 0x80 ==> (((byte as i8) as i32) as u32) == byte) by (bit_vector);
    assert(byte >= 0x80 ==> (((byte as i8) as i32) as u32) == byte + 0xFFFF_FF00) by (bit_vector);
}

/// Widening a half-word through `i16` gives the word of its two's
/// complement reading.
pub(crate) proof fn lemma_sign_extend_half(half: u16)
    ensures
        (((half as i16) as i32) as u32) == wrap32(signed_value(half as int, 0x1_0000)),
{
    assert(half < 0x8000 ==> (((half as i16) as i32) as u32) == half) by (bit_vector);
    assert(half >= 0x8000 ==> (((half as i16) as i32) as u32) == half + 0xFFFF_0000)
        by (bit_vector);
}

/// Narrowing a word keeps its value modulo the size of the narrow type.
pub(crate) proof fn lemma_low_bits(x: u32)
    ensures
        (x as u8) == x % 0x100,
        (x as u16) == x % 0x1_0000,
{
    assert((x as u8) == x % 0x100 && (x as u16) == x % 0x1_0000) by (bit_vector);
}

/// Shifting an immediate into the upper half of a word multiplies it by
/// 2^16, modulo 2^32.
pub(crate) proof fn lemma_upper_immediate(imm: i32)
    ensures
        ((imm as u32) << 16) == wrap32(imm * 0x1_0000),
{
    lemma_signed_as_word(imm);
    let word = imm as u32;
    assert((word << 16) == (word * 0x1_0000) % 0x1_0000_0000) by (bit_vector);
}

/// Bit 5 of a word is set when the word divided by 32 is odd, and the low
/// half of a word cut out by mask is the word modulo 2^16.
pub(crate) proof fn lemma_width_bit(word: u32)
    ensures
        ((0x20 & word) == 32) <==> (word / 32) % 2 == 1,
        (word & 0x0000_FFFF) == word % 0x1_0000,
{
    assert((((0x20 & word) == 32) <==> (word / 32) % 2 == 1) && (word & 0x0000_FFFF) == word
        % 0x1_0000) by (bit_vector);
}

} // verus!
