use vstd::prelude::*;

verus! {

/// The byte that an integer wraps to: its remainder modulo 2^8.
pub open spec fn wrap8(i: int) -> u8 {
    (i % 0x100) as u8
}

/// The 16-bit word that an integer wraps to: its remainder modulo 2^16.
pub open spec fn wrap16(i: int) -> u16 {
    (i % 0x1_0000) as u16
}

/// The low byte of a 16-bit word.
pub open spec fn low_byte(value: u16) -> u8 {
    (value % 256) as u8
}

/// The high byte of a 16-bit word.
pub open spec fn high_byte(value: u16) -> u8 {
    (value / 256) as u8
}

/// The 16-bit word with the given high and low bytes.
pub open spec fn word(high: u8, low: u8) -> u16 {
    (high * 256 + low) as u16
}

/// The two's complement of a byte.
pub open spec fn negated(v: u8) -> u8 {
    wrap8(256 - v)
}

/// How many bits of the byte are set.
pub open spec fn count_ones(v: u8) -> int {
    v % 2 + (v / 2) % 2 + (v / 4) % 2 + (v / 8) % 2 + (v / 16) % 2 + (v / 32) % 2 + (v / 64) % 2
        + (v / 128) % 2
}

/// Whether an even number of bits of the byte are set.
pub open spec fn even_parity(v: u8) -> bool {
    count_ones(v) % 2 == 0
}

/// Whether the byte is negative as a two's complement number.
pub open spec fn sign(v: u8) -> bool {
    v >= 0x80
}

/// How shifts and masks on bytes and words read as arithmetic.
pub proof fn lemma_bytes_and_words(h: u8, l: u8, value: u16)
    ensures
        (h as u16) << 8 | (l as u16) == word(h, l),
        (value >> 8) as u8 == high_byte(value),
        (value & 0xFF) as u8 == low_byte(value),
        value >> 8 < 256,
        value & 0xFF < 256,
{
    assert((h as u16) << 8 | (l as u16) == (h as u16) * 256 + (l as u16)) by (bit_vector);
    assert(value >> 8 == value / 256) by (bit_vector);
    assert(value & 0xFF == value % 256) by (bit_vector);
}

/// Wrapping addition and subtraction of bytes and of words are addition and
/// subtraction modulo 2^8 and 2^16.
pub proof fn lemma_wrapping(a: u8, b: u8, x: u16, y: u16)
    ensures
        vstd::wrapping::u8_specs::wrapping_add(a, b) == wrap8(a + b),
        vstd::wrapping::u8_specs::wrapping_sub(a, b) == wrap8(a - b),
        vstd::wrapping::u16_specs::wrapping_add(x, y) == wrap16(x + y),
        vstd::wrapping::u16_specs::wrapping_sub(x, y) == wrap16(x - y),
{
}

/// The sum of two bytes, held in a word, has the wrapped sum as its low
/// byte, and a high byte of zero unless the sum carries out of bit 7.
pub proof fn lemma_sum_of_bytes(a: u8, b: u8, carry: bool)
    ensures
        low_byte((a + b + (if carry { 1int } else { 0 })) as u16) == wrap8(
            a + b + (if carry { 1int } else { 0 }),
        ),
        high_byte((a + b + (if carry { 1int } else { 0 })) as u16) > 0 <==> a + b + (if carry {
            1int
        } else {
            0
        }) > 0xFF,
{
}

/// Joins a high and a low byte into a word.
pub fn from_pair(h: u8, l: u8) -> (hl: u16)
    ensures
        hl == word(h, l),
{
    proof {
        lemma_bytes_and_words(h, l, 0);
    }
    (h as u16) << 8 | (l as u16)
}

/// Splits a word into its high and its low byte.
pub fn to_pair(hl: u16) -> (pair: (u8, u8))
    ensures
        pair.0 == high_byte(hl),
        pair.1 == low_byte(hl),
{
    proof {
        lemma_bytes_and_words(0, 0, hl);
    }
    ((hl >> 8) as u8, (hl & 0xFF) as u8)
}

/// The two's complement of `v`: the byte that, added to `v`, gives 0 modulo
/// 2^8.
pub fn neg(v: u8) -> (r: u8)
    ensures
        r == negated(v),
        (r + v) % 256 == 0,
{
    0u8.wrapping_sub(v)
}

/// Adds `value` to `x`, wrapping at 2^16.
pub fn add16(x: &mut u16, value: u16)
    ensures
        *final(x) == wrap16(*old(x) + value),
{
    *x = x.wrapping_add(value);
}

/// Subtracts `value` from `x`, wrapping at 2^16.
pub fn sub16(x: &mut u16, value: u16)
    ensures
        *final(x) == wrap16(*old(x) - value),
{
    *x = x.wrapping_sub(value);
}

/// Whether an even number of bits of `v` are set.
pub fn parity(v: u8) -> (even: bool)
    ensures
        even == even_parity(v),
{
    let folded = v ^ (v >> 4);
    let folded = folded ^ (folded >> 2);
    let folded = folded ^ (folded >> 1);
    assert(((v ^ (v >> 4)) ^ ((v ^ (v >> 4)) >> 2) ^ (((v ^ (v >> 4)) ^ ((v ^ (v >> 4)) >> 2)) >> 1))
        & 1 == 0 <==> (v % 2 + (v / 2) % 2 + (v / 4) % 2 + (v / 8) % 2 + (v / 16) % 2 + (v / 32) % 2
        + (v / 64) % 2 + (v / 128) % 2) % 2 == 0) by (bit_vector);
    folded & 1 == 0
}

} // verus!
