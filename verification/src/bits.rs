//! Bytes and 16-bit words as numbers: wrap-around, splitting and joining,
//! and the facts that tie masks and shifts to division and remainder.

use vstd::prelude::*;

verus! {

/// `i` reduced to eight bits.
#[verifier::opaque]
pub open spec fn wrap8(i: int) -> u8 {
    (i % 0x100) as u8
}

/// `i` reduced to sixteen bits.
#[verifier::opaque]
pub open spec fn wrap16(i: int) -> u16 {
    (i % 0x1_0000) as u16
}

/// The 16-bit word with low byte `lo` and high byte `hi`.
#[verifier::opaque]
pub open spec fn word(lo: u8, hi: u8) -> u16 {
    (hi * 0x100 + lo) as u16
}

/// The low byte of `w`.
#[verifier::opaque]
pub open spec fn low_byte(w: u16) -> u8 {
    (w % 0x100) as u8
}

/// The high byte of `w`, which is also the number of its 256-byte page.
#[verifier::opaque]
pub open spec fn high_byte(w: u16) -> u8 {
    (w / 0x100) as u8
}

/// Bit 7 of `v`, the sign of a byte read as two's complement.
pub open spec fn sign_bit(v: u8) -> bool {
    v & 0x80 != 0
}

/// `v` read as a two's-complement number in `-128..=127`.
pub open spec fn signed(v: u8) -> int {
    if v < 0x80 {
        v as int
    } else {
        v - 0x100
    }
}

/// Bit 7 is set exactly in the upper half of the byte range.
pub proof fn lemma_sign_bit(v: u8)
    ensures
        sign_bit(v) <==> v >= 0x80,
        sign_bit(v) <==> signed(v) < 0,
{
    assert((v & 0x80 != 0) <==> v >= 0x80) by (bit_vector);
}

/// A word is made of its low and its high byte.
pub proof fn lemma_split_word(w: u16)
    ensures
        word(low_byte(w), high_byte(w)) == w,
        low_byte(w) == w % 0x100,
        high_byte(w) == w / 0x100,
{
    reveal(word);
    reveal(low_byte);
    reveal(high_byte);
}

/// The bytes of a word made of two bytes are those two bytes.
pub proof fn lemma_join_bytes(lo: u8, hi: u8)
    ensures
        low_byte(word(lo, hi)) == lo,
        high_byte(word(lo, hi)) == hi,
        word(lo, hi) == hi * 0x100 + lo,
{
    reveal(word);
    reveal(low_byte);
    reveal(high_byte);
}

/// Reducing to eight bits is taking the remainder by 256, and changes
/// nothing that is in range already.
pub proof fn lemma_wrap8(i: int)
    ensures
        wrap8(i) == i % 0x100,
        0 <= i < 0x100 ==> wrap8(i) == i,
{
    reveal(wrap8);
}

/// Reducing twice is reducing once: a wrapped sum may be wrapped again
/// after more is added.
pub proof fn lemma_wrap8_sum(i: int, j: int)
    ensures
        wrap8(wrap8(i) + j) == wrap8(i + j),
{
    reveal(wrap8);
}

/// Reducing to sixteen bits is taking the remainder by 65,536, and
/// changes nothing that is in range already.
pub proof fn lemma_wrap16(i: int)
    ensures
        wrap16(i) == i % 0x1_0000,
        0 <= i < 0x1_0000 ==> wrap16(i) == i,
{
    reveal(wrap16);
}

/// Reducing twice is reducing once, for sixteen bits.
pub proof fn lemma_wrap16_sum(i: int, j: int)
    ensures
        wrap16(wrap16(i) + j) == wrap16(i + j),
{
    reveal(wrap16);
}

/// `a + b` reduced to eight bits.
pub fn plus8(a: u8, b: u8) -> (r: u8)
    ensures
        r == wrap8(a + b),
{
    proof {
        reveal(wrap8);
    }
    a.wrapping_add(b)
}

/// `a - b` reduced to eight bits.
pub fn minus8(a: u8, b: u8) -> (r: u8)
    ensures
        r == wrap8(a - b),
{
    proof {
        reveal(wrap8);
    }
    a.wrapping_sub(b)
}

/// `a + b` reduced to sixteen bits.
pub fn plus16(a: u16, b: u16) -> (r: u16)
    ensures
        r == wrap16(a + b),
{
    proof {
        reveal(wrap16);
    }
    a.wrapping_add(b)
}

/// `a - b` reduced to sixteen bits.
pub fn minus16(a: u16, b: u16) -> (r: u16)
    ensures
        r == wrap16(a - b),
{
    proof {
        reveal(wrap16);
    }
    a.wrapping_sub(b)
}

/// `base` plus the byte `offset` read as a signed number, reduced to
/// sixteen bits.
pub fn plus_signed(base: u16, offset: u8) -> (r: u16)
    ensures
        r == wrap16(base + signed(offset)),
{
    proof {
        reveal(wrap16);
    }
    let forward = base.wrapping_add(offset as u16);
    if offset < 0x80 {
        forward
    } else {
        forward.wrapping_sub(0x100)
    }
}

/// Joins two bytes into a word.
pub fn make_word(lo: u8, hi: u8) -> (w: u16)
    ensures
        w == word(lo, hi),
        low_byte(w) == lo,
        high_byte(w) == hi,
{
    proof {
        reveal(word);
        reveal(low_byte);
        reveal(high_byte);
    }
    let l: u16 = lo as u16;
    let h: u16 = hi as u16;
    assert((h << 8) | l == h * 0x100 + l) by (bit_vector)
        requires
            l < 0x100,
            h < 0x100,
    ;
    (h << 8) | l
}

/// The low byte of a word.
pub fn low(w: u16) -> (b: u8)
    ensures
        b == low_byte(w),
        b == wrap8(w as int),
{
    proof {
        reveal(wrap8);
        reveal(low_byte);
    }
    assert(w & 0xFF == w % 0x100) by (bit_vector);
    (w & 0xFF) as u8
}

/// The high byte of a word.
pub fn high(w: u16) -> (b: u8)
    ensures
        b == high_byte(w),
{
    proof {
        reveal(high_byte);
    }
    assert(w >> 8 == w / 0x100) by (bit_vector);
    (w >> 8) as u8
}

} // verus!
