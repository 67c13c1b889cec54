//! Bit-level facts that connect the executable masking, shifting and rotate
//! expressions with the arithmetic form the specifications use.

use vstd::prelude::*;

verus! {

/// A byte with a clear low nibble is exactly the sum of its four high bits,
/// and each single-bit mask extracts either zero or the mask itself.
pub proof fn lemma_flag_bits(f: u8)
    by (bit_vector)
    ensures
        f & 0x80 == 0 || f & 0x80 == 0x80,
        f & 0x40 == 0 || f & 0x40 == 0x40,
        f & 0x20 == 0 || f & 0x20 == 0x20,
        f & 0x10 == 0 || f & 0x10 == 0x10,
        f & 0x0f == 0 ==> f == (f & 0x80) | (f & 0x40) | (f & 0x20) | (f & 0x10),
{
}

/// Setting or clearing one flag mask leaves every other flag bit and the low
/// nibble untouched, and lands the targeted bit.
pub proof fn lemma_mask_ops(f: u8)
    by (bit_vector)
    ensures
        (f | 0x80) & 0x80 == 0x80,
        (f | 0x80) & 0x40 == f & 0x40,
        (f | 0x80) & 0x20 == f & 0x20,
        (f | 0x80) & 0x10 == f & 0x10,
        (f | 0x80) & 0x0f == f & 0x0f,
        (f & !0x80) & 0x80 == 0,
        (f & !0x80) & 0x40 == f & 0x40,
        (f & !0x80) & 0x20 == f & 0x20,
        (f & !0x80) & 0x10 == f & 0x10,
        (f & !0x80) & 0x0f == f & 0x0f,
        (f | 0x40) & 0x80 == f & 0x80,
        (f | 0x40) & 0x40 == 0x40,
        (f | 0x40) & 0x20 == f & 0x20,
        (f | 0x40) & 0x10 == f & 0x10,
        (f | 0x40) & 0x0f == f & 0x0f,
        (f & !0x40) & 0x80 == f & 0x80,
        (f & !0x40) & 0x40 == 0,
        (f & !0x40) & 0x20 == f & 0x20,
        (f & !0x40) & 0x10 == f & 0x10,
        (f & !0x40) & 0x0f == f & 0x0f,
        (f | 0x20) & 0x80 == f & 0x80,
        (f | 0x20) & 0x40 == f & 0x40,
        (f | 0x20) & 0x20 == 0x20,
        (f | 0x20) & 0x10 == f & 0x10,
        (f | 0x20) & 0x0f == f & 0x0f,
        (f & !0x20) & 0x80 == f & 0x80,
        (f & !0x20) & 0x40 == f & 0x40,
        (f & !0x20) & 0x20 == 0,
        (f & !0x20) & 0x10 == f & 0x10,
        (f & !0x20) & 0x0f == f & 0x0f,
        (f | 0x10) & 0x80 == f & 0x80,
        (f | 0x10) & 0x40 == f & 0x40,
        (f | 0x10) & 0x20 == f & 0x20,
        (f | 0x10) & 0x10 == 0x10,
        (f | 0x10) & 0x0f == f & 0x0f,
        (f & !0x10) & 0x80 == f & 0x80,
        (f & !0x10) & 0x40 == f & 0x40,
        (f & !0x10) & 0x20 == f & 0x20,
        (f & !0x10) & 0x10 == 0,
        (f & !0x10) & 0x0f == f & 0x0f,
{
}

/// Joining a high and a low byte by shift-and-or is the same as the sum
/// `high * 256 + low`.
pub proof fn lemma_word_combine(h: u8, l: u8)
    by (bit_vector)
    ensures
        ((h as u16) << 8) | (l as u16) == (h as u16) * 256 + (l as u16),
{
}

/// Splitting a 16-bit value by shift and mask is the same as division and
/// remainder by 256.
pub proof fn lemma_word_split(v: u16)
    by (bit_vector)
    ensures
        (v >> 8) == v / 256,
        (v & 0x00ff) == v % 256,
        v / 256 < 256,
        v % 256 < 256,
{
}

/// The low nibble mask of a byte is its remainder by 16, and masking the
/// high nibble leaves nothing in the low one.
pub proof fn lemma_low_nibble(x: u8)
    by (bit_vector)
    ensures
        x & 0x0f == x % 16,
        0x0f & x == x % 16,
        x % 16 < 16,
        (x & 0xf0) & 0x0f == 0,
{
}

/// How the shift, rotate and nibble-swap expressions on a byte read as
/// plain arithmetic.
pub proof fn lemma_shift_facts(v: u8)
    by (bit_vector)
    ensures
        (v >> 1) == v / 2,
        (v << 1) == (((v as u16) * 2 % 256) as u8),
        ((v << 1) | 0x01) == ((((v << 1) as u16) + 1) as u8),
        ((v >> 1) | 0x80) == (((v as u16) / 2 + 128) as u8),
        v >= 128 ==> (v & 0x80) == 128,
        v < 128 ==> (v & 0x80) == 0,
        v % 2 == 1 ==> (v & 0x01) == 1,
        v % 2 == 0 ==> (v & 0x01) == 0,
        ((v >> 1) | (v & 0x80)) == (((v >> 1) as u16 + (v & 0x80) as u16) as u8),
        (((v & 0xf0) >> 4) | ((v & 0x0f) << 4)) == ((((v as u16) % 16) * 16 + (v as u16) / 16) as u8),
{
}


/// Joining four single-bit flag masks by or reads each one back, and leaves
/// the low nibble clear.
pub proof fn lemma_or_bits(a: u8, b: u8, c: u8, d: u8)
    by (bit_vector)
    requires
        a == 0 || a == 0x80,
        b == 0 || b == 0x40,
        c == 0 || c == 0x20,
        d == 0 || d == 0x10,
    ensures
        (a | b | c | d) & 0x80 == a,
        (a | b | c | d) & 0x40 == b,
        (a | b | c | d) & 0x20 == c,
        (a | b | c | d) & 0x10 == d,
        (a | b | c | d) & 0x0f == 0,
{
}

/// The low twelve-bit mask of a word is its remainder by 0x1000.
pub proof fn lemma_low_twelve(x: u16)
    by (bit_vector)
    ensures
        x & 0x0fff == x % 0x1000,
        0x0fff & x == x % 0x1000,
        x % 0x1000 < 0x1000,
{
}

/// Remainder by 256 of a value below 512: the value itself, or the value
/// less 256.
pub proof fn lemma_mod_512(x: int)
    by (nonlinear_arith)
    requires
        0 <= x < 512,
    ensures
        x % 256 == (if x < 256 { x } else { x - 256 }),
{
}

/// A byte with one of the five low interrupt bits set has a nonzero low
/// five-bit mask.
pub proof fn lemma_low_five(x: u8)
    by (bit_vector)
    ensures
        x & 0x01 != 0 ==> x & 0x1f != 0,
        x & 0x02 != 0 ==> x & 0x1f != 0,
        x & 0x04 != 0 ==> x & 0x1f != 0,
        x & 0x08 != 0 ==> x & 0x1f != 0,
        x & 0x10 != 0 ==> x & 0x1f != 0,
{
}

/// How one interrupt bit behaves under masking: a bit pending and enabled
/// survives the mask, and clearing it leaves the other bits alone.
pub proof fn lemma_intr_bits(a: u8, b: u8)
    by (bit_vector)
    ensures
        a & 0x01 != 0 && b & 0x01 != 0 ==> (a & b) & 0x01 != 0,
        (a & b) & 0x01 != 0 ==> (a & b) != 0,
        (a & !0x01) & 0x01 == 0,
        (a & !0x01) & 0x10 == a & 0x10,
        (a & !0x10) & 0x10 == 0,
{
}

/// The mask left after servicing the lowest interrupt bit: the serviced bit
/// is gone, the bits between stay clear, and a pending enabled high bit
/// still selects the next dispatch.
pub proof fn lemma_intr_bits2(a: u8, b: u8)
    by (bit_vector)
    ensures
        ((a & !0x01) & b) & 0x01 == 0,
        (a & b) & 0x0e == 0 ==> ((a & !0x01) & b) & 0x02 == 0,
        (a & b) & 0x0e == 0 ==> ((a & !0x01) & b) & 0x04 == 0,
        (a & b) & 0x0e == 0 ==> ((a & !0x01) & b) & 0x08 == 0,
        a & 0x10 != 0 && b & 0x10 != 0 ==> ((a & !0x01) & b) & 0x10 != 0,
        ((a & !0x01) & b) & 0x10 != 0 ==> ((a & !0x01) & b) != 0,
        ((a & !0x01) & !0x10) & 0x10 == 0,
{
}

/// The low two bits of a byte are its remainder by four.
pub proof fn lemma_low_two(x: u8)
    by (bit_vector)
    ensures
        x & 0x03 == x % 4,
        x % 4 < 4,
{
}

/// The selection mask keeps a byte within the two selection bits.
pub proof fn lemma_sel_mask(x: u8)
    by (bit_vector)
    ensures
        x & 0x30 <= 0x30,
{
}

/// The masks and shifts of the banking registers stay within their widths.
pub proof fn lemma_bank_bits(v: u8)
    by (bit_vector)
    ensures
        (1u8 << 7) == 0x80,
        v & 0x1f <= 0x1f,
        (v & 0x1f) & 0x7f == v & 0x1f,
        (1u8 & 0x7f) == 1,
        v & 0x03 <= 3,
        ((v & 0xc0) >> 6) <= 3,
        (((v & 0xc0) >> 6) << 5) <= 0x60,
{
}

/// A bank number within the eight-bank range keeps its value under the
/// banking masks.
pub proof fn lemma_bank_usize(x: usize)
    by (bit_vector)
    requires
        x <= 7,
    ensures
        x & 0x1f == x,
        x & 0xe0 == 0,
{
}

} // verus!
