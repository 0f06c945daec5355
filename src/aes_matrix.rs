//! The round transforms on a 16-byte state.
//!
//! A state is a 4x4 matrix of bytes stored column by column: flat index `i`
//! holds row `i % 4` of column `i / 4`.
//!
//! ```text
//!  0  4  8 12
//!  1  5  9 13
//!  2  6 10 14
//!  3  7 11 15
//! ```
use vstd::prelude::*;

use crate::math::{
    inv_mix_byte, inv_mix_word, lemma_inv_mix_byte_xor, lemma_inv_mix_mix, lemma_inv_mix_word_byte,
    lemma_mix_inv_mix,
    mix_byte, word_byte, Math,
};
use crate::sbox::{inv_s_box, inv_sbox, lemma_inv_sbox_inverse, lemma_sbox_inverse, s_box, sbox};

verus! {

/// Every byte passed through the forward substitution table.
pub open spec fn sub_bytes(s: Seq<u8>) -> Seq<u8> {
    Seq::new(16, |i: int| sbox(s[i]))
}

/// Every byte passed through the inverse substitution table.
pub open spec fn inv_sub_bytes(s: Seq<u8>) -> Seq<u8> {
    Seq::new(16, |i: int| inv_sbox(s[i]))
}

/// Row `r` rotated left by `r` columns: the byte at row `r`, column `c` comes
/// from column `(c + r) % 4`.
pub open spec fn shift_rows(s: Seq<u8>) -> Seq<u8> {
    Seq::new(16, |i: int| s[(i + 4 * (i % 4)) % 16])
}

/// Row `r` rotated right by `r` columns.
pub open spec fn inv_shift_rows(s: Seq<u8>) -> Seq<u8> {
    Seq::new(16, |i: int| s[(i + 12 * (i % 4)) % 16])
}

/// Byte `i` of the state after mix-columns: the column of `i` multiplied by
/// the circulant matrix (02 03 01 01).
#[verifier::opaque]
pub open spec fn mix_at(s: Seq<u8>, i: int) -> u8 {
    let c = i - i % 4;
    let r = i % 4;
    mix_byte(s[c + r], s[c + (r + 1) % 4], s[c + (r + 2) % 4], s[c + (r + 3) % 4])
}

/// Byte `i` of the state after inverse mix-columns: the column of `i`
/// multiplied by the circulant matrix (0e 0b 0d 09).
#[verifier::opaque]
pub open spec fn inv_mix_at(s: Seq<u8>, i: int) -> u8 {
    let c = i - i % 4;
    let r = i % 4;
    inv_mix_byte(s[c + r], s[c + (r + 1) % 4], s[c + (r + 2) % 4], s[c + (r + 3) % 4])
}

/// Every column multiplied by the circulant matrix (02 03 01 01).
pub open spec fn mix_columns(s: Seq<u8>) -> Seq<u8> {
    Seq::new(16, |i: int| mix_at(s, i))
}

/// Every column multiplied by the circulant matrix (0e 0b 0d 09).
pub open spec fn inv_mix_columns(s: Seq<u8>) -> Seq<u8> {
    Seq::new(16, |i: int| inv_mix_at(s, i))
}

/// Word `c` of the round key xored into column `c`, its most significant byte
/// into row 0.
pub open spec fn add_round_key(s: Seq<u8>, k: Seq<u32>) -> Seq<u8> {
    Seq::new(16, |i: int| s[i] ^ word_byte(k[i / 4], i % 4))
}

/// The state with row `r` rotated left by `t` columns.
pub open spec fn rotate_row(s: Seq<u8>, r: int, t: int) -> Seq<u8> {
    Seq::new(16, |i: int| if i % 4 == r { s[(i + 4 * t) % 16] } else { s[i] })
}

/// The state with the four bytes from `offset` on mixed as one column: byte
/// `offset + j` becomes `2*a[j] ^ 3*a[j+1] ^ a[j+2] ^ a[j+3]`, where `a` is
/// the window and its indices are taken cyclically.
pub open spec fn mix_column(s: Seq<u8>, offset: int) -> Seq<u8> {
    Seq::new(
        16,
        |i: int|
            if offset <= i < offset + 4 {
                let j = i - offset;
                mix_byte(
                    s[offset + j],
                    s[offset + (j + 1) % 4],
                    s[offset + (j + 2) % 4],
                    s[offset + (j + 3) % 4],
                )
            } else {
                s[i]
            },
    )
}

/// The state with the four bytes from `offset` on mixed as one column by the
/// inverse matrix: byte `offset + j` becomes
/// `e*a[j] ^ b*a[j+1] ^ d*a[j+2] ^ 9*a[j+3]`.
pub open spec fn inv_mix_column(s: Seq<u8>, offset: int) -> Seq<u8> {
    Seq::new(
        16,
        |i: int|
            if offset <= i < offset + 4 {
                let j = i - offset;
                inv_mix_byte(
                    s[offset + j],
                    s[offset + (j + 1) % 4],
                    s[offset + (j + 2) % 4],
                    s[offset + (j + 3) % 4],
                )
            } else {
                s[i]
            },
    )
}

/// On a window that is a whole column, mixing the window gives the bytes of
/// mix-columns.
proof fn lemma_mix_column_at(s: Seq<u8>, offset: int, i: int)
    requires
        offset % 4 == 0,
        0 <= offset <= 12,
        offset <= i < offset + 4,
    ensures
        mix_column(s, offset)[i] == mix_at(s, i),
        inv_mix_column(s, offset)[i] == inv_mix_at(s, i),
{
    reveal(mix_at);
    reveal(inv_mix_at);
    assert(i - i % 4 == offset && i % 4 == i - offset);
}

/// Mixing a byte reads its own column only.
proof fn lemma_mix_reads_column(s: Seq<u8>, t: Seq<u8>, i: int)
    requires
        0 <= i < 16,
        forall|j: int| i - i % 4 <= j < i - i % 4 + 4 ==> s[j] == t[j],
    ensures
        mix_at(s, i) == mix_at(t, i),
        inv_mix_at(s, i) == inv_mix_at(t, i),
{
    reveal(mix_at);
    reveal(inv_mix_at);
    let c = i - i % 4;
    let r = i % 4;
    assert(s[c + r] == t[c + r]);
    assert(s[c + (r + 1) % 4] == t[c + (r + 1) % 4]);
    assert(s[c + (r + 2) % 4] == t[c + (r + 2) % 4]);
    assert(s[c + (r + 3) % 4] == t[c + (r + 3) % 4]);
}

/// The inverse substitution undoes the forward one on every state.
pub proof fn lemma_inv_sub_bytes_sub_bytes(s: Seq<u8>)
    requires
        s.len() == 16,
    ensures
        inv_sub_bytes(sub_bytes(s)) == s,
{
    assert forall|i: int| 0 <= i < 16 implies inv_sub_bytes(sub_bytes(s))[i] == s[i] by {
        lemma_sbox_inverse(s[i]);
    }
    assert(inv_sub_bytes(sub_bytes(s)) =~= s);
}

/// Shifting the rows right undoes shifting them left.
pub proof fn lemma_inv_shift_rows_shift_rows(s: Seq<u8>)
    requires
        s.len() == 16,
    ensures
        inv_shift_rows(shift_rows(s)) == s,
{
    assert(inv_shift_rows(shift_rows(s)) =~= s);
}

/// Inverse mix-columns undoes mix-columns on every state.
pub proof fn lemma_inv_mix_columns_mix_columns(s: Seq<u8>)
    requires
        s.len() == 16,
    ensures
        inv_mix_columns(mix_columns(s)) == s,
{
    reveal(mix_at);
    reveal(inv_mix_at);
    assert forall|i: int| 0 <= i < 16 implies inv_mix_columns(mix_columns(s))[i] == s[i] by {
        let c = i - i % 4;
        let r = i % 4;
        lemma_inv_mix_mix(s[c + r], s[c + (r + 1) % 4], s[c + (r + 2) % 4], s[c + (r + 3) % 4]);
    }
    assert(inv_mix_columns(mix_columns(s)) =~= s);
}

/// Adding the same round key twice gives back the state.
pub proof fn lemma_add_round_key_twice(s: Seq<u8>, k: Seq<u32>)
    requires
        s.len() == 16,
        k.len() >= 4,
    ensures
        add_round_key(add_round_key(s, k), k) == s,
{
    assert forall|i: int| 0 <= i < 16 implies add_round_key(add_round_key(s, k), k)[i] == s[i] by {
        let (x, y) = (s[i], word_byte(k[i / 4], i % 4));
        assert(x ^ y ^ y == x) by (bit_vector);
    }
    assert(add_round_key(add_round_key(s, k), k) =~= s);
}

/// Substitution and shift-rows undone in the order of the inverse cipher.
pub proof fn lemma_undo_sub_shift(s: Seq<u8>)
    requires
        s.len() == 16,
    ensures
        inv_shift_rows(inv_sub_bytes(shift_rows(sub_bytes(s)))) == s,
{
    lemma_inv_sub_bytes_sub_bytes(s);
    assert(inv_sub_bytes(shift_rows(sub_bytes(s))) =~= shift_rows(inv_sub_bytes(sub_bytes(s))));
    lemma_inv_shift_rows_shift_rows(s);
}

/// Inverse mix-columns of a state with a round key added is the inverse-mixed
/// state with the inverse-mixed round key added.
pub proof fn lemma_inv_mix_columns_add_round_key(s: Seq<u8>, k: Seq<u32>)
    requires
        s.len() == 16,
        k.len() == 4,
    ensures
        inv_mix_columns(add_round_key(s, k)) == add_round_key(
            inv_mix_columns(s),
            k.map_values(|x: u32| inv_mix_word(x)),
        ),
{
    reveal(inv_mix_at);
    let ik = k.map_values(|x: u32| inv_mix_word(x));
    assert forall|i: int| 0 <= i < 16 implies inv_mix_columns(add_round_key(s, k))[i]
        == add_round_key(inv_mix_columns(s), ik)[i] by {
        let c = i - i % 4;
        let r = i % 4;
        let w = k[i / 4];
        assert((c + r) / 4 == i / 4 && (c + (r + 1) % 4) / 4 == i / 4);
        assert((c + (r + 2) % 4) / 4 == i / 4 && (c + (r + 3) % 4) / 4 == i / 4);
        assert((c + (r + 1) % 4) % 4 == (r + 1) % 4 && (c + (r + 2) % 4) % 4 == (r + 2) % 4);
        assert((c + (r + 3) % 4) % 4 == (r + 3) % 4 && (c + r) % 4 == r);
        lemma_inv_mix_byte_xor(
            s[c + r],
            s[c + (r + 1) % 4],
            s[c + (r + 2) % 4],
            s[c + (r + 3) % 4],
            word_byte(w, r),
            word_byte(w, (r + 1) % 4),
            word_byte(w, (r + 2) % 4),
            word_byte(w, (r + 3) % 4),
        );
        lemma_inv_mix_word_byte(w, r);
    }
    assert(inv_mix_columns(add_round_key(s, k)) =~= add_round_key(inv_mix_columns(s), ik));
}

/// Mix-columns undoes inverse mix-columns on every state.
pub proof fn lemma_mix_columns_inv_mix_columns(s: Seq<u8>)
    requires
        s.len() == 16,
    ensures
        mix_columns(inv_mix_columns(s)) == s,
{
    reveal(mix_at);
    reveal(inv_mix_at);
    assert forall|i: int| 0 <= i < 16 implies mix_columns(inv_mix_columns(s))[i] == s[i] by {
        let c = i - i % 4;
        let r = i % 4;
        lemma_mix_inv_mix(s[c + r], s[c + (r + 1) % 4], s[c + (r + 2) % 4], s[c + (r + 3) % 4]);
    }
    assert(mix_columns(inv_mix_columns(s)) =~= s);
}

/// The inverse substitution and shift-rows undone in the order of the cipher.
pub proof fn lemma_redo_sub_shift(s: Seq<u8>)
    requires
        s.len() == 16,
    ensures
        shift_rows(sub_bytes(inv_shift_rows(inv_sub_bytes(s)))) == s,
{
    assert forall|i: int| 0 <= i < 16 implies sub_bytes(inv_sub_bytes(s))[i] == s[i] by {
        lemma_inv_sbox_inverse(s[i]);
    }
    assert(sub_bytes(inv_sub_bytes(s)) =~= s);
    assert(sub_bytes(inv_shift_rows(inv_sub_bytes(s))) =~= inv_shift_rows(sub_bytes(inv_sub_bytes(s))));
    assert(shift_rows(inv_shift_rows(s)) =~= s);
}

#[derive(Debug)]
pub struct AesMatrix {}

impl AesMatrix {
    /// Substitutes each byte of the state through the forward table.
    pub fn substitute_bytes_8(bytes: &mut [u8; 16])
        ensures
            final(bytes)@ == sub_bytes(old(bytes)@),
    {
        let ghost s = bytes@;
        let mut i: usize = 0;
        while i < 16
            invariant
                i <= 16,
                bytes@.len() == 16,
                forall|j: int| 0 <= j < i ==> bytes@[j] == sbox(s[j]),
                forall|j: int| i <= j < 16 ==> bytes@[j] == s[j],
            decreases 16 - i,
        {
            bytes[i] = s_box(bytes[i]);
            i = i + 1;
        }
        assert(bytes@ =~= sub_bytes(s));
    }

    /// Substitutes each byte of the state through the inverse table.
    pub fn inv_substitute_bytes_8(bytes: &mut [u8; 16])
        ensures
            final(bytes)@ == inv_sub_bytes(old(bytes)@),
    {
        let ghost s = bytes@;
        let mut i: usize = 0;
        while i < 16
            invariant
                i <= 16,
                bytes@.len() == 16,
                forall|j: int| 0 <= j < i ==> bytes@[j] == inv_sbox(s[j]),
                forall|j: int| i <= j < 16 ==> bytes@[j] == s[j],
            decreases 16 - i,
        {
            bytes[i] = inv_s_box(bytes[i]);
            i = i + 1;
        }
        assert(bytes@ =~= inv_sub_bytes(s));
    }

    /// Rotates every row left by its index: row 0 stays, row 1 moves one
    /// column, and so on.
    pub fn shift_rows_8(bytes: &mut [u8; 16])
        ensures
            final(bytes)@ == shift_rows(old(bytes)@),
    {
        let ghost s = bytes@;
        Self::shift_row_8(bytes, 1);
        Self::shift_row_8(bytes, 2);
        Self::shift_row_8(bytes, 3);
        assert(bytes@ =~= shift_rows(s));
    }

    /// Rotates row `index` left by `index` columns, one column at a time. Row
    /// `index` sits at the flat indices `index`, `index + 4`, `index + 8` and
    /// `index + 12`.
    fn shift_row_8(bytes: &mut [u8; 16], index: usize)
        requires
            index < 4,
        ensures
            final(bytes)@ == rotate_row(old(bytes)@, index as int, index as int),
    {
        let ghost s = bytes@;
        let mut t: usize = 0;
        while t < index
            invariant
                t <= index < 4,
                bytes@.len() == 16,
                bytes@ == rotate_row(s, index as int, t as int),
            decreases index - t,
        {
            let temp = bytes[index];
            bytes[index] = bytes[4 + index];
            bytes[4 + index] = bytes[8 + index];
            bytes[8 + index] = bytes[12 + index];
            bytes[12 + index] = temp;
            assert(bytes@ =~= rotate_row(s, index as int, t + 1));
            t = t + 1;
        }
    }

    /// Rotates every row right by its index, undoing `shift_rows_8`.
    pub fn inv_shift_rows_8(bytes: &mut [u8; 16])
        ensures
            final(bytes)@ == inv_shift_rows(old(bytes)@),
    {
        let ghost s = bytes@;
        Self::inv_shift_row_8(bytes, 1);
        Self::inv_shift_row_8(bytes, 2);
        Self::inv_shift_row_8(bytes, 3);
        assert(bytes@ =~= inv_shift_rows(s));
    }

    /// Rotates row `index` right by `index` columns, one column at a time.
    fn inv_shift_row_8(bytes: &mut [u8; 16], index: usize)
        requires
            index < 4,
        ensures
            final(bytes)@ == rotate_row(old(bytes)@, index as int, 4 - index),
    {
        let ghost s = bytes@;
        let mut t: usize = 0;
        while t < index
            invariant
                t <= index < 4,
                bytes@.len() == 16,
                bytes@ == rotate_row(s, index as int, 4 - t),
            decreases index - t,
        {
            let temp = bytes[12 + index];
            bytes[12 + index] = bytes[8 + index];
            bytes[8 + index] = bytes[4 + index];
            bytes[4 + index] = bytes[index];
            bytes[index] = temp;
            assert(bytes@ =~= rotate_row(s, index as int, 4 - (t + 1)));
            t = t + 1;
        }
    }

    /// Multiplies every column by the circulant matrix (02 03 01 01).
    pub fn mix_columns_8(bytes: &mut [u8; 16])
        ensures
            final(bytes)@ == mix_columns(old(bytes)@),
    {
        let ghost s = bytes@;
        Self::mix_column_8(bytes, 0);
        let ghost s1 = bytes@;
        Self::mix_column_8(bytes, 4);
        let ghost s2 = bytes@;
        Self::mix_column_8(bytes, 8);
        let ghost s3 = bytes@;
        Self::mix_column_8(bytes, 12);
        assert forall|i: int| 0 <= i < 16 implies bytes@[i] == mix_at(s, i) by {
            if i < 4 {
                lemma_mix_column_at(s, 0, i);
            } else if i < 8 {
                lemma_mix_column_at(s1, 4, i);
                lemma_mix_reads_column(s, s1, i);
            } else if i < 12 {
                lemma_mix_column_at(s2, 8, i);
                lemma_mix_reads_column(s, s2, i);
            } else {
                lemma_mix_column_at(s3, 12, i);
                lemma_mix_reads_column(s, s3, i);
            }
        }
        assert(bytes@ =~= mix_columns(s));
    }

    /// Mixes the four bytes from `offset` on as one column `c`: output byte `r`
    /// is `2*c[r] ^ 3*c[r+1] ^ c[r+2] ^ c[r+3]`, indices taken cyclically.
    /// Callers pass the start of a column; any window inside the state works.
    fn mix_column_8(bytes: &mut [u8; 16], offset: usize)
        requires
            offset <= 12,
        ensures
            forall|i: int|
                offset <= i < offset + 4 ==> #[trigger] final(bytes)@[i] == mix_byte(
                    old(bytes)@[i],
                    old(bytes)@[offset + (i - offset + 1) % 4],
                    old(bytes)@[offset + (i - offset + 2) % 4],
                    old(bytes)@[offset + (i - offset + 3) % 4],
                ),
            forall|i: int|
                0 <= i < 16 && !(offset <= i < offset + 4) ==> final(bytes)@[i] == old(bytes)@[i],
            final(bytes)@ == mix_column(old(bytes)@, offset as int),
    {
        let ghost s = bytes@;
        let mut c0 = bytes[offset];
        let mut c1 = bytes[offset + 1];
        let mut c2 = bytes[offset + 2];
        let mut c3 = bytes[offset + 3];
        let mut index: usize = 0;
        while index < 4
            invariant
                index <= 4,
                offset <= 12,
                s.len() == 16,
                bytes@.len() == 16,
                c0 == s[offset + (index % 4) as int],
                c1 == s[offset + ((index + 1) % 4) as int],
                c2 == s[offset + ((index + 2) % 4) as int],
                c3 == s[offset + ((index + 3) % 4) as int],
                forall|j: int| offset <= j < offset + index ==> bytes@[j] == mix_column(s, offset as int)[j],
                forall|j: int| 0 <= j < 16 && !(offset <= j < offset + index) ==> bytes@[j] == s[j],
            decreases 4 - index,
        {
            bytes[offset + index] = Math::x_time(c0) ^ Math::multiplication_by_03(c1) ^ c2 ^ c3;
            let temp = c0;
            c0 = c1;
            c1 = c2;
            c2 = c3;
            c3 = temp;
            index = index + 1;
        }
        assert(bytes@ =~= mix_column(s, offset as int));
    }

    /// Multiplies every column by the circulant matrix (0e 0b 0d 09), the
    /// inverse of the one of `mix_columns_8`.
    pub fn inv_mix_columns_8(bytes: &mut [u8; 16])
        ensures
            final(bytes)@ == inv_mix_columns(old(bytes)@),
    {
        let ghost s = bytes@;
        Self::inv_mix_column_8(bytes, 0);
        let ghost s1 = bytes@;
        Self::inv_mix_column_8(bytes, 4);
        let ghost s2 = bytes@;
        Self::inv_mix_column_8(bytes, 8);
        let ghost s3 = bytes@;
        Self::inv_mix_column_8(bytes, 12);
        assert forall|i: int| 0 <= i < 16 implies bytes@[i] == inv_mix_at(s, i) by {
            if i < 4 {
                lemma_mix_column_at(s, 0, i);
            } else if i < 8 {
                lemma_mix_column_at(s1, 4, i);
                lemma_mix_reads_column(s, s1, i);
            } else if i < 12 {
                lemma_mix_column_at(s2, 8, i);
                lemma_mix_reads_column(s, s2, i);
            } else {
                lemma_mix_column_at(s3, 12, i);
                lemma_mix_reads_column(s, s3, i);
            }
        }
        assert(bytes@ =~= inv_mix_columns(s));
    }

    /// Mixes the four bytes from `offset` on as one column `c` by the inverse
    /// matrix: output byte `r` is `e*c[r] ^ b*c[r+1] ^ d*c[r+2] ^ 9*c[r+3]`.
    fn inv_mix_column_8(bytes: &mut [u8; 16], offset: usize)
        requires
            offset <= 12,
        ensures
            forall|i: int|
                offset <= i < offset + 4 ==> #[trigger] final(bytes)@[i] == inv_mix_byte(
                    old(bytes)@[i],
                    old(bytes)@[offset + (i - offset + 1) % 4],
                    old(bytes)@[offset + (i - offset + 2) % 4],
                    old(bytes)@[offset + (i - offset + 3) % 4],
                ),
            forall|i: int|
                0 <= i < 16 && !(offset <= i < offset + 4) ==> final(bytes)@[i] == old(bytes)@[i],
            final(bytes)@ == inv_mix_column(old(bytes)@, offset as int),
    {
        let ghost s = bytes@;
        let mut c0 = bytes[offset];
        let mut c1 = bytes[offset + 1];
        let mut c2 = bytes[offset + 2];
        let mut c3 = bytes[offset + 3];
        let mut index: usize = 0;
        while index < 4
            invariant
                index <= 4,
                offset <= 12,
                s.len() == 16,
                bytes@.len() == 16,
                c0 == s[offset + (index % 4) as int],
                c1 == s[offset + ((index + 1) % 4) as int],
                c2 == s[offset + ((index + 2) % 4) as int],
                c3 == s[offset + ((index + 3) % 4) as int],
                forall|j: int| offset <= j < offset + index ==> bytes@[j] == inv_mix_column(s, offset as int)[j],
                forall|j: int| 0 <= j < 16 && !(offset <= j < offset + index) ==> bytes@[j] == s[j],
            decreases 4 - index,
        {
            bytes[offset + index] = Math::multiplication_by_0e(c0) ^ Math::multiplication_by_0b(c1)
                ^ Math::multiplication_by_0d(c2) ^ Math::multiplication_by_09(c3);
            let temp = c0;
            c0 = c1;
            c1 = c2;
            c2 = c3;
            c3 = temp;
            index = index + 1;
        }
        assert(bytes@ =~= inv_mix_column(s, offset as int));
    }

    /// Xors word `c` of `key_words` into column `c`, most significant byte
    /// into row 0. Only the first four words are read.
    pub fn add_round_key_8(bytes: &mut [u8; 16], key_words: &[u32])
        requires
            key_words@.len() >= 4,
        ensures
            final(bytes)@ == add_round_key(old(bytes)@, key_words@),
    {
        let ghost s = bytes@;
        let mut i: usize = 0;
        while i < 16
            invariant
                i <= 16,
                i % 4 == 0,
                key_words@.len() >= 4,
                bytes@.len() == 16,
                forall|j: int| 0 <= j < i ==> bytes@[j] == s[j] ^ word_byte(key_words@[j / 4], j % 4),
                forall|j: int| i <= j < 16 ==> bytes@[j] == s[j],
            decreases 16 - i,
        {
            let (k0, k1, k2, k3) = Math::word_to_bytes(key_words[i / 4]);
            bytes[i] = bytes[i] ^ k0;
            bytes[i + 1] = bytes[i + 1] ^ k1;
            bytes[i + 2] = bytes[i + 2] ^ k2;
            bytes[i + 3] = bytes[i + 3] ^ k3;
            i = i + 4;
        }
        assert(bytes@ =~= add_round_key(s, key_words@));
    }

    /// Applies inverse mix-columns to word `index` of `columns`, the word read
    /// as one column with its most significant byte in row 0. Used to build the
    /// round keys of the equivalent inverse cipher.
    pub fn inv_mix_column_a(columns: &mut [u32; 4], index: usize)
        requires
            index < 4,
        ensures
            final(columns)@ == old(columns)@.update(index as int, inv_mix_word(old(columns)@[index as int])),
    {
        let (b0, b1, b2, b3) = Math::word_to_bytes(columns[index]);
        let r0 = Math::multiplication_by_0e(b0) ^ Math::multiplication_by_0b(b1)
            ^ Math::multiplication_by_0d(b2) ^ Math::multiplication_by_09(b3);
        let r1 = Math::multiplication_by_0e(b1) ^ Math::multiplication_by_0b(b2)
            ^ Math::multiplication_by_0d(b3) ^ Math::multiplication_by_09(b0);
        let r2 = Math::multiplication_by_0e(b2) ^ Math::multiplication_by_0b(b3)
            ^ Math::multiplication_by_0d(b0) ^ Math::multiplication_by_09(b1);
        let r3 = Math::multiplication_by_0e(b3) ^ Math::multiplication_by_0b(b0)
            ^ Math::multiplication_by_0d(b1) ^ Math::multiplication_by_09(b2);
        columns[index] = Math::bytes_to_word(r0, r1, r2, r3);
    }
}

} // verus!
