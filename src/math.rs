//! Arithmetic in GF(2^8) and on 32-bit words, shared by the state transform
//! and the key schedule.
use vstd::prelude::*;

use crate::sbox::{s_box, sbox};

verus! {

/// Multiplication by 0x02 in GF(2^8) modulo x^8 + x^4 + x^3 + x + 1.
pub open spec fn xtime(b: u8) -> u8 {
    if b & 0x80 == 0 {
        b << 1u8
    } else {
        (b << 1u8) ^ 0x1b
    }
}

/// Multiplication by 0x03.
pub open spec fn mul_03(b: u8) -> u8 {
    xtime(b) ^ b
}

/// Multiplication by 0x09.
pub open spec fn mul_09(b: u8) -> u8 {
    xtime(xtime(xtime(b))) ^ b
}

/// Multiplication by 0x0b.
pub open spec fn mul_0b(b: u8) -> u8 {
    xtime(xtime(xtime(b))) ^ xtime(b) ^ b
}

/// Multiplication by 0x0d.
pub open spec fn mul_0d(b: u8) -> u8 {
    xtime(xtime(xtime(b))) ^ xtime(xtime(b)) ^ b
}

/// Multiplication by 0x0e.
pub open spec fn mul_0e(b: u8) -> u8 {
    xtime(xtime(xtime(b))) ^ xtime(xtime(b)) ^ xtime(b)
}

/// First byte of the mix-columns product of a column (a, b, c, d); the other
/// bytes come from rotating the column.
pub open spec fn mix_byte(a: u8, b: u8, c: u8, d: u8) -> u8 {
    xtime(a) ^ mul_03(b) ^ c ^ d
}

/// First byte of the inverse mix-columns product of a column (a, b, c, d).
pub open spec fn inv_mix_byte(a: u8, b: u8, c: u8, d: u8) -> u8 {
    mul_0e(a) ^ mul_0b(b) ^ mul_0d(c) ^ mul_09(d)
}

/// Byte `j` of a word, most significant first (big-endian order).
pub open spec fn word_byte(w: u32, j: int) -> u8 {
    if j == 0 {
        (w >> 24u32) as u8
    } else if j == 1 {
        (w >> 16u32) as u8
    } else if j == 2 {
        (w >> 8u32) as u8
    } else {
        w as u8
    }
}

/// The word whose bytes, most significant first, are b0, b1, b2, b3.
pub open spec fn word_of_bytes(b0: u8, b1: u8, b2: u8, b3: u8) -> u32 {
    ((b0 as u32) << 24u32) | ((b1 as u32) << 16u32) | ((b2 as u32) << 8u32) | (b3 as u32)
}

/// Cyclic rotation of a word by one byte: the most significant byte becomes the
/// least significant one.
pub open spec fn rot_word(w: u32) -> u32 {
    (w << 8u32) | (w >> 24u32)
}

/// Each byte of a word passed through the forward substitution table.
pub open spec fn sub_word(w: u32) -> u32 {
    word_of_bytes(
        sbox(word_byte(w, 0)),
        sbox(word_byte(w, 1)),
        sbox(word_byte(w, 2)),
        sbox(word_byte(w, 3)),
    )
}

/// Inverse mix-columns applied to a word read as one column, its most
/// significant byte in row 0.
pub open spec fn inv_mix_word(w: u32) -> u32 {
    let (b0, b1, b2, b3) = (word_byte(w, 0), word_byte(w, 1), word_byte(w, 2), word_byte(w, 3));
    word_of_bytes(
        inv_mix_byte(b0, b1, b2, b3),
        inv_mix_byte(b1, b2, b3, b0),
        inv_mix_byte(b2, b3, b0, b1),
        inv_mix_byte(b3, b0, b1, b2),
    )
}

pub proof fn lemma_word_bytes(b0: u8, b1: u8, b2: u8, b3: u8)
    ensures
        word_byte(word_of_bytes(b0, b1, b2, b3), 0) == b0,
        word_byte(word_of_bytes(b0, b1, b2, b3), 1) == b1,
        word_byte(word_of_bytes(b0, b1, b2, b3), 2) == b2,
        word_byte(word_of_bytes(b0, b1, b2, b3), 3) == b3,
{
    assert(word_byte(word_of_bytes(b0, b1, b2, b3), 0) == b0) by (bit_vector);
    assert(word_byte(word_of_bytes(b0, b1, b2, b3), 1) == b1) by (bit_vector);
    assert(word_byte(word_of_bytes(b0, b1, b2, b3), 2) == b2) by (bit_vector);
    assert(word_byte(word_of_bytes(b0, b1, b2, b3), 3) == b3) by (bit_vector);
}

/// Multiplication by 0x02 distributes over addition (xor) in GF(2^8).
pub proof fn lemma_xtime_xor(x: u8, y: u8)
    ensures
        xtime(x ^ y) == xtime(x) ^ xtime(y),
{
    assert(xtime(x ^ y) == xtime(x) ^ xtime(y)) by (bit_vector);
}

/// Each constant multiplier distributes over addition (xor) in GF(2^8).
pub proof fn lemma_mul_xor(x: u8, y: u8)
    ensures
        mul_03(x ^ y) == mul_03(x) ^ mul_03(y),
        mul_09(x ^ y) == mul_09(x) ^ mul_09(y),
        mul_0b(x ^ y) == mul_0b(x) ^ mul_0b(y),
        mul_0d(x ^ y) == mul_0d(x) ^ mul_0d(y),
        mul_0e(x ^ y) == mul_0e(x) ^ mul_0e(y),
{
    assert(mul_03(x ^ y) == mul_03(x) ^ mul_03(y)) by (bit_vector);
    assert(mul_09(x ^ y) == mul_09(x) ^ mul_09(y)) by (bit_vector);
    assert(mul_0b(x ^ y) == mul_0b(x) ^ mul_0b(y)) by (bit_vector);
    assert(mul_0d(x ^ y) == mul_0d(x) ^ mul_0d(y)) by (bit_vector);
    assert(mul_0e(x ^ y) == mul_0e(x) ^ mul_0e(y)) by (bit_vector);
}

/// The products of the coefficients of the two circulant matrices: the
/// diagonal of their product is one, every other entry is zero.
proof fn lemma_coefficient_products(v: u8)
    ensures
        mul_0e(xtime(v)) ^ mul_0b(v) ^ mul_0d(v) ^ mul_09(mul_03(v)) == v,
        mul_0e(mul_03(v)) ^ mul_0b(xtime(v)) ^ mul_0d(v) ^ mul_09(v) == 0,
        mul_0e(v) ^ mul_0b(mul_03(v)) ^ mul_0d(xtime(v)) ^ mul_09(v) == 0,
        mul_0e(v) ^ mul_0b(v) ^ mul_0d(mul_03(v)) ^ mul_09(xtime(v)) == 0,
{
    assert(mul_0e(xtime(v)) ^ mul_0b(v) ^ mul_0d(v) ^ mul_09(mul_03(v)) == v) by (bit_vector);
    assert(mul_0e(mul_03(v)) ^ mul_0b(xtime(v)) ^ mul_0d(v) ^ mul_09(v) == 0) by (bit_vector);
    assert(mul_0e(v) ^ mul_0b(mul_03(v)) ^ mul_0d(xtime(v)) ^ mul_09(v) == 0) by (bit_vector);
    assert(mul_0e(v) ^ mul_0b(v) ^ mul_0d(mul_03(v)) ^ mul_09(xtime(v)) == 0) by (bit_vector);
}

/// Inverse mix-columns undoes mix-columns on one column.
pub proof fn lemma_inv_mix_mix(a: u8, b: u8, c: u8, d: u8)
    ensures
        inv_mix_byte(
            mix_byte(a, b, c, d),
            mix_byte(b, c, d, a),
            mix_byte(c, d, a, b),
            mix_byte(d, a, b, c),
        ) == a,
{
    let (xa, xb, xc, xd) = (xtime(a), xtime(b), xtime(c), xtime(d));
    let (ta, tb, tc, td) = (mul_03(a), mul_03(b), mul_03(c), mul_03(d));
    // mul_0e(xa ^ tb ^ c ^ d)
    lemma_mul_xor(xa ^ tb ^ c, d);
    lemma_mul_xor(xa ^ tb, c);
    lemma_mul_xor(xa, tb);
    // mul_0b(xb ^ tc ^ d ^ a)
    lemma_mul_xor(xb ^ tc ^ d, a);
    lemma_mul_xor(xb ^ tc, d);
    lemma_mul_xor(xb, tc);
    // mul_0d(xc ^ td ^ a ^ b)
    lemma_mul_xor(xc ^ td ^ a, b);
    lemma_mul_xor(xc ^ td, a);
    lemma_mul_xor(xc, td);
    // mul_09(xd ^ ta ^ b ^ c)
    lemma_mul_xor(xd ^ ta ^ b, c);
    lemma_mul_xor(xd ^ ta, b);
    lemma_mul_xor(xd, ta);
    lemma_coefficient_products(a);
    lemma_coefficient_products(b);
    lemma_coefficient_products(c);
    lemma_coefficient_products(d);
    let (e0, e1, e2, e3) = (mul_0e(xa), mul_0e(tb), mul_0e(c), mul_0e(d));
    let (b0, b1, b2, b3) = (mul_0b(xb), mul_0b(tc), mul_0b(d), mul_0b(a));
    let (d0, d1, d2, d3) = (mul_0d(xc), mul_0d(td), mul_0d(a), mul_0d(b));
    let (n0, n1, n2, n3) = (mul_09(xd), mul_09(ta), mul_09(b), mul_09(c));
    assert((e0 ^ e1 ^ e2 ^ e3) ^ (b0 ^ b1 ^ b2 ^ b3) ^ (d0 ^ d1 ^ d2 ^ d3) ^ (n0 ^ n1 ^ n2 ^ n3) == a)
        by (bit_vector)
        requires
            e0 ^ b3 ^ d2 ^ n1 == a,
            e1 ^ b0 ^ d3 ^ n2 == 0,
            e2 ^ b1 ^ d0 ^ n3 == 0,
            e3 ^ b2 ^ d1 ^ n0 == 0,
    ;
}

/// The products of the coefficients of the two circulant matrices, taken in
/// the other order.
proof fn lemma_coefficient_products_rev(v: u8)
    ensures
        xtime(mul_0e(v)) ^ mul_03(mul_09(v)) ^ mul_0d(v) ^ mul_0b(v) == v,
        xtime(mul_0b(v)) ^ mul_03(mul_0e(v)) ^ mul_09(v) ^ mul_0d(v) == 0,
        xtime(mul_0d(v)) ^ mul_03(mul_0b(v)) ^ mul_0e(v) ^ mul_09(v) == 0,
        xtime(mul_09(v)) ^ mul_03(mul_0d(v)) ^ mul_0b(v) ^ mul_0e(v) == 0,
{
    assert(xtime(mul_0e(v)) ^ mul_03(mul_09(v)) ^ mul_0d(v) ^ mul_0b(v) == v) by (bit_vector);
    assert(xtime(mul_0b(v)) ^ mul_03(mul_0e(v)) ^ mul_09(v) ^ mul_0d(v) == 0) by (bit_vector);
    assert(xtime(mul_0d(v)) ^ mul_03(mul_0b(v)) ^ mul_0e(v) ^ mul_09(v) == 0) by (bit_vector);
    assert(xtime(mul_09(v)) ^ mul_03(mul_0d(v)) ^ mul_0b(v) ^ mul_0e(v) == 0) by (bit_vector);
}

/// Mix-columns undoes inverse mix-columns on one column.
pub proof fn lemma_mix_inv_mix(a: u8, b: u8, c: u8, d: u8)
    ensures
        mix_byte(
            inv_mix_byte(a, b, c, d),
            inv_mix_byte(b, c, d, a),
            inv_mix_byte(c, d, a, b),
            inv_mix_byte(d, a, b, c),
        ) == a,
{
    let (ea, eb, ec, ed) = (mul_0e(a), mul_0e(b), mul_0e(c), mul_0e(d));
    let (ba, bb, bc, bd) = (mul_0b(a), mul_0b(b), mul_0b(c), mul_0b(d));
    let (da, db, dc, dd) = (mul_0d(a), mul_0d(b), mul_0d(c), mul_0d(d));
    let (na, nb, nc, nd) = (mul_09(a), mul_09(b), mul_09(c), mul_09(d));
    // xtime(ea ^ bb ^ dc ^ nd)
    lemma_xtime_xor(ea ^ bb ^ dc, nd);
    lemma_xtime_xor(ea ^ bb, dc);
    lemma_xtime_xor(ea, bb);
    // mul_03(eb ^ bc ^ dd ^ na)
    lemma_mul_xor(eb ^ bc ^ dd, na);
    lemma_mul_xor(eb ^ bc, dd);
    lemma_mul_xor(eb, bc);
    lemma_coefficient_products_rev(a);
    lemma_coefficient_products_rev(b);
    lemma_coefficient_products_rev(c);
    lemma_coefficient_products_rev(d);
    let (x0, x1, x2, x3) = (xtime(ea), xtime(bb), xtime(dc), xtime(nd));
    let (t0, t1, t2, t3) = (mul_03(eb), mul_03(bc), mul_03(dd), mul_03(na));
    assert((x0 ^ x1 ^ x2 ^ x3) ^ (t0 ^ t1 ^ t2 ^ t3) ^ (ec ^ bd ^ da ^ nb) ^ (ed ^ ba ^ db ^ nc) == a)
        by (bit_vector)
        requires
            x0 ^ t3 ^ da ^ ba == a,
            x1 ^ t0 ^ nb ^ db == 0,
            x2 ^ t1 ^ ec ^ nc == 0,
            x3 ^ t2 ^ bd ^ ed == 0,
    ;
}

/// Inverse mix-columns distributes over addition (xor) of columns.
pub proof fn lemma_inv_mix_byte_xor(a: u8, b: u8, c: u8, d: u8, p: u8, q: u8, r: u8, t: u8)
    ensures
        inv_mix_byte(a ^ p, b ^ q, c ^ r, d ^ t) == inv_mix_byte(a, b, c, d) ^ inv_mix_byte(p, q, r, t),
{
    lemma_mul_xor(a, p);
    lemma_mul_xor(b, q);
    lemma_mul_xor(c, r);
    lemma_mul_xor(d, t);
    let (e0, e1) = (mul_0e(a), mul_0e(p));
    let (b0, b1) = (mul_0b(b), mul_0b(q));
    let (d0, d1) = (mul_0d(c), mul_0d(r));
    let (n0, n1) = (mul_09(d), mul_09(t));
    assert((e0 ^ e1) ^ (b0 ^ b1) ^ (d0 ^ d1) ^ (n0 ^ n1) == (e0 ^ b0 ^ d0 ^ n0) ^ (e1 ^ b1 ^ d1 ^ n1))
        by (bit_vector);
}

/// Row `j` of an inverse-mixed word is inverse mix-columns of the word's bytes
/// taken from row `j` on, cyclically.
pub proof fn lemma_inv_mix_word_byte(w: u32, j: int)
    requires
        0 <= j < 4,
    ensures
        word_byte(inv_mix_word(w), j) == inv_mix_byte(
            word_byte(w, j),
            word_byte(w, (j + 1) % 4),
            word_byte(w, (j + 2) % 4),
            word_byte(w, (j + 3) % 4),
        ),
{
    let (b0, b1, b2, b3) = (word_byte(w, 0), word_byte(w, 1), word_byte(w, 2), word_byte(w, 3));
    lemma_word_bytes(
        inv_mix_byte(b0, b1, b2, b3),
        inv_mix_byte(b1, b2, b3, b0),
        inv_mix_byte(b2, b3, b0, b1),
        inv_mix_byte(b3, b0, b1, b2),
    );
}

/// Arithmetic on bytes and words shared by the state transform and the key
/// schedule.
pub struct Math {}

impl Math {
    /// Multiplies a byte by 0x02 in GF(2^8).
    pub fn x_time(b: u8) -> (r: u8)
        ensures
            r == xtime(b),
    {
        if b & 0x80 == 0 {
            b << 1u8
        } else {
            (b << 1u8) ^ 0x1b
        }
    }

    pub fn multiplication_by_03(b: u8) -> (r: u8)
        ensures
            r == mul_03(b),
    {
        Self::x_time(b) ^ b
    }

    pub fn multiplication_by_09(b: u8) -> (r: u8)
        ensures
            r == mul_09(b),
    {
        let b8 = Self::x_time(Self::x_time(Self::x_time(b)));
        b8 ^ b
    }

    pub fn multiplication_by_0b(b: u8) -> (r: u8)
        ensures
            r == mul_0b(b),
    {
        let b2 = Self::x_time(b);
        let b8 = Self::x_time(Self::x_time(b2));
        b8 ^ b2 ^ b
    }

    pub fn multiplication_by_0d(b: u8) -> (r: u8)
        ensures
            r == mul_0d(b),
    {
        let b4 = Self::x_time(Self::x_time(b));
        let b8 = Self::x_time(b4);
        b8 ^ b4 ^ b
    }

    pub fn multiplication_by_0e(b: u8) -> (r: u8)
        ensures
            r == mul_0e(b),
    {
        let b2 = Self::x_time(b);
        let b4 = Self::x_time(b2);
        let b8 = Self::x_time(b4);
        b8 ^ b4 ^ b2
    }

    /// Rotates a word left by one byte.
    pub fn rot_word(word: &mut u32)
        ensures
            *final(word) == rot_word(*old(word)),
    {
        *word = (*word << 8u32) | (*word >> 24u32);
    }

    /// Splits a word into its four bytes, most significant first.
    pub fn word_to_bytes(w: u32) -> (r: (u8, u8, u8, u8))
        ensures
            r == (word_byte(w, 0), word_byte(w, 1), word_byte(w, 2), word_byte(w, 3)),
    {
        ((w >> 24u32) as u8, (w >> 16u32) as u8, (w >> 8u32) as u8, w as u8)
    }

    /// Joins four bytes, most significant first, into a word.
    pub fn bytes_to_word(b0: u8, b1: u8, b2: u8, b3: u8) -> (r: u32)
        ensures
            r == word_of_bytes(b0, b1, b2, b3),
    {
        ((b0 as u32) << 24u32) | ((b1 as u32) << 16u32) | ((b2 as u32) << 8u32) | (b3 as u32)
    }

    /// Substitutes each byte of a word through the forward table.
    pub fn substitute_bytes_word(word: &mut u32)
        ensures
            *final(word) == sub_word(*old(word)),
    {
        let (b0, b1, b2, b3) = Self::word_to_bytes(*word);
        *word = Self::bytes_to_word(s_box(b0), s_box(b1), s_box(b2), s_box(b3));
    }
}

} // verus!
