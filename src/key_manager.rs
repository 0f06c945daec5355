//! Expansion of a cipher key into the round-key words, and the inverse-mixed
//! copy of those words that the equivalent inverse cipher reads.
use vstd::prelude::*;

use crate::aes_matrix::AesMatrix;
use crate::math::{inv_mix_word, rot_word, sub_word, Math};

verus! {

/// The round constant `j`: 0x02 raised to the power `j` in GF(2^8), in the
/// most significant byte of a word.
pub open spec fn round_constant(j: int) -> u32 {
    if j == 0 {
        0x01000000
    } else if j == 1 {
        0x02000000
    } else if j == 2 {
        0x04000000
    } else if j == 3 {
        0x08000000
    } else if j == 4 {
        0x10000000
    } else if j == 5 {
        0x20000000
    } else if j == 6 {
        0x40000000
    } else if j == 7 {
        0x80000000
    } else if j == 8 {
        0x1B000000
    } else {
        0x36000000
    }
}

/// The value xored into word `i - nk` to give word `i` of the schedule, from
/// word `i - 1`.
pub open spec fn schedule_temp(prev: u32, i: int, nk: int) -> u32 {
    if i % nk == 0 {
        sub_word(rot_word(prev)) ^ round_constant(i / nk - 1)
    } else if nk == 8 && i % nk == 4 {
        sub_word(prev)
    } else {
        prev
    }
}

/// The first `n` words of the schedule expanded from `key`.
pub open spec fn expand_key(key: Seq<u32>, n: nat) -> Seq<u32>
    decreases n,
{
    if n <= key.len() {
        key.take(n as int)
    } else {
        let w = expand_key(key, (n - 1) as nat);
        let i = n - 1;
        w.push(w[i - key.len()] ^ schedule_temp(w[i - 1], i, key.len() as int))
    }
}

/// The full schedule of a key of `nk` words: four words for each of the
/// `nk + 6` rounds and one more set for the initial key addition.
pub open spec fn key_schedule(key: Seq<u32>) -> Seq<u32> {
    expand_key(key, 4 * (key.len() + 7))
}

/// Each word of a schedule passed through inverse mix-columns.
pub open spec fn inverse_schedule(w: Seq<u32>) -> Seq<u32> {
    w.map_values(|x: u32| inv_mix_word(x))
}

/// The expansion to `n` words has `n` words.
pub proof fn lemma_expand_key_len(key: Seq<u32>, n: nat)
    ensures
        expand_key(key, n).len() == n,
    decreases n,
{
    if n > key.len() {
        lemma_expand_key_len(key, (n - 1) as nat);
    }
}

/// A key of 4, 6 or 8 words expands to four words for each of its `nk + 6`
/// rounds plus four: 44, 52 or 60 words.
pub proof fn lemma_key_schedule_len(key: Seq<u32>)
    requires
        key.len() == 4 || key.len() == 6 || key.len() == 8,
    ensures
        key_schedule(key).len() == 4 * (key.len() + 6 + 1),
{
    lemma_expand_key_len(key, 4 * (key.len() + 7));
}

/// Looks up round constant `j`.
fn round_constant_word(j: usize) -> (r: u32)
    requires
        j < 10,
    ensures
        r == round_constant(j as int),
{
    match j {
        0 => 0x01000000,
        1 => 0x02000000,
        2 => 0x04000000,
        3 => 0x08000000,
        4 => 0x10000000,
        5 => 0x20000000,
        6 => 0x40000000,
        7 => 0x80000000,
        8 => 0x1B000000,
        _ => 0x36000000,
    }
}

/// The round count and the two schedules of one key.
pub struct KeyManager {
    rounds: usize,
    key: Vec<u32>,
    inverse_key: Vec<u32>,
}

impl KeyManager {
    /// The number of rounds.
    pub closed spec fn spec_rounds(&self) -> nat {
        self.rounds as nat
    }

    /// The round-key words of the cipher.
    pub closed spec fn schedule(&self) -> Seq<u32> {
        self.key@
    }

    /// The round-key words of the equivalent inverse cipher.
    pub closed spec fn inv_schedule(&self) -> Seq<u32> {
        self.inverse_key@
    }

    pub open spec fn wf(&self) -> bool {
        &&& self.spec_rounds() == 10 || self.spec_rounds() == 12 || self.spec_rounds() == 14
        &&& self.schedule().len() == 4 * (self.spec_rounds() + 1)
        &&& self.inv_schedule() == inverse_schedule(self.schedule())
    }

    pub fn new_128(in_key: &[u32; 4]) -> (r: KeyManager)
        ensures
            r.wf(),
            r.spec_rounds() == 10,
            r.schedule() == key_schedule(in_key@),
            r.schedule().len() == 44,
    {
        let (key, inverse_key) = Self::expand_key_128(in_key);
        proof {
            lemma_expand_key_len(in_key@, 44);
        }
        KeyManager { rounds: 10, key, inverse_key }
    }

    pub fn new_192(in_key: &[u32; 6]) -> (r: KeyManager)
        ensures
            r.wf(),
            r.spec_rounds() == 12,
            r.schedule() == key_schedule(in_key@),
            r.schedule().len() == 52,
    {
        let (key, inverse_key) = Self::expand_key_192(in_key);
        proof {
            lemma_expand_key_len(in_key@, 52);
        }
        KeyManager { rounds: 12, key, inverse_key }
    }

    pub fn new_256(in_key: &[u32; 8]) -> (r: KeyManager)
        ensures
            r.wf(),
            r.spec_rounds() == 14,
            r.schedule() == key_schedule(in_key@),
            r.schedule().len() == 60,
    {
        let (key, inverse_key) = Self::expand_key_256(in_key);
        proof {
            lemma_expand_key_len(in_key@, 60);
        }
        KeyManager { rounds: 14, key, inverse_key }
    }

    /// Copies the key words into a new vector.
    fn seed(in_key: &[u32], nk: usize) -> (r: Vec<u32>)
        requires
            in_key@.len() == nk,
        ensures
            r@ == in_key@,
    {
        let mut expanded_key: Vec<u32> = Vec::new();
        let mut i: usize = 0;
        while i < nk
            invariant
                i <= nk,
                in_key@.len() == nk,
                expanded_key@ == in_key@.take(i as int),
            decreases nk - i,
        {
            expanded_key.push(in_key[i]);
            assert(in_key@.take(i + 1) =~= in_key@.take(i as int).push(in_key@[i as int]));
            i = i + 1;
        }
        assert(in_key@.take(nk as int) =~= in_key@);
        expanded_key
    }

    /// Builds the schedule of a 128-bit key and its inverse-mixed copy.
    fn expand_key_128(key: &[u32; 4]) -> (r: (Vec<u32>, Vec<u32>))
        ensures
            r.0@ == key_schedule(key@),
            r.1@ == inverse_schedule(r.0@),
    {
        let mut expanded_key = Self::seed(key.as_slice(), 4);
        Self::populate_key_128_192(&mut expanded_key, 4, 10);
        let expanded_key_inverse = Self::produce_inverse_key(&expanded_key);
        (expanded_key, expanded_key_inverse)
    }

    /// Builds the schedule of a 192-bit key and its inverse-mixed copy.
    fn expand_key_192(key: &[u32; 6]) -> (r: (Vec<u32>, Vec<u32>))
        ensures
            r.0@ == key_schedule(key@),
            r.1@ == inverse_schedule(r.0@),
    {
        let mut expanded_key = Self::seed(key.as_slice(), 6);
        Self::populate_key_128_192(&mut expanded_key, 6, 12);
        let expanded_key_inverse = Self::produce_inverse_key(&expanded_key);
        (expanded_key, expanded_key_inverse)
    }

    /// Builds the schedule of a 256-bit key and its inverse-mixed copy.
    fn expand_key_256(key: &[u32; 8]) -> (r: (Vec<u32>, Vec<u32>))
        ensures
            r.0@ == key_schedule(key@),
            r.1@ == inverse_schedule(r.0@),
    {
        let mut expanded_key = Self::seed(key.as_slice(), 8);
        Self::populate_key_256(&mut expanded_key);
        let expanded_key_inverse = Self::produce_inverse_key(&expanded_key);
        (expanded_key, expanded_key_inverse)
    }

    /// Passes every word of the schedule through inverse mix-columns. The
    /// first and last round keys are transformed too, though the inverse
    /// cipher reads the untransformed ones there.
    fn produce_inverse_key(key: &Vec<u32>) -> (r: Vec<u32>)
        ensures
            r@ == inverse_schedule(key@),
    {
        let mut expanded_key_inverse: Vec<u32> = Vec::new();
        let mut i: usize = 0;
        while i < key.len()
            invariant
                i <= key@.len(),
                expanded_key_inverse@ == inverse_schedule(key@.take(i as int)),
            decreases key@.len() - i,
        {
            let mut inv_words: [u32; 4] = [key[i], 0, 0, 0];
            AesMatrix::inv_mix_column_a(&mut inv_words, 0);
            expanded_key_inverse.push(inv_words[0]);
            assert(key@.take(i + 1) =~= key@.take(i as int).push(key@[i as int]));
            assert(inverse_schedule(key@.take(i + 1)) =~= inverse_schedule(key@.take(i as int)).push(
                inv_mix_word(key@[i as int]),
            ));
            i = i + 1;
        }
        assert(key@.take(key@.len() as int) =~= key@);
        expanded_key_inverse
    }

    /// Appends the words of the schedule of a 128-bit or 192-bit key after
    /// its `nk` key words, up to `4 * (nr + 1)` words.
    fn populate_key_128_192(key: &mut Vec<u32>, nk: usize, nr: usize)
        requires
            (nk == 4 && nr == 10) || (nk == 6 && nr == 12),
            old(key)@.len() == nk,
        ensures
            final(key)@ == expand_key(old(key)@, (4 * (nr + 1)) as nat),
    {
        let ghost k = key@;
        proof {
            lemma_expand_key_len(k, nk as nat);
        }
        let mut i: usize = nk;
        while i < 4 * (nr + 1)
            invariant
                (nk == 4 && nr == 10) || (nk == 6 && nr == 12),
                k.len() == nk,
                nk <= i <= 4 * (nr + 1),
                key@ == expand_key(k, i as nat),
            decreases 4 * (nr + 1) - i,
        {
            proof {
                lemma_expand_key_len(k, i as nat);
            }
            let mut temp = key[i - 1];
            if i % nk == 0 {
                Math::rot_word(&mut temp);
                Math::substitute_bytes_word(&mut temp);
                temp = temp ^ round_constant_word((i / nk) - 1);
            }
            let new_val = key[i - nk] ^ temp;
            key.push(new_val);
            i = i + 1;
        }
    }

    /// Appends the words of the schedule of a 256-bit key after its eight key
    /// words, up to 60 words. Every fourth word also passes through the
    /// substitution table.
    fn populate_key_256(key: &mut Vec<u32>)
        requires
            old(key)@.len() == 8,
        ensures
            final(key)@ == expand_key(old(key)@, 60),
    {
        let ghost k = key@;
        let nk: usize = 8;
        let nr: usize = 14;
        proof {
            lemma_expand_key_len(k, 8);
        }
        let mut i: usize = nk;
        while i < 4 * (nr + 1)
            invariant
                nk == 8,
                nr == 14,
                k.len() == 8,
                8 <= i <= 60,
                key@ == expand_key(k, i as nat),
            decreases 60 - i,
        {
            proof {
                lemma_expand_key_len(k, i as nat);
            }
            let mut temp = key[i - 1];
            if i % nk == 0 {
                Math::rot_word(&mut temp);
                Math::substitute_bytes_word(&mut temp);
                temp = temp ^ round_constant_word((i / nk) - 1);
            } else if i % nk == 4 {
                Math::substitute_bytes_word(&mut temp);
            }
            let new_val = key[i - nk] ^ temp;
            key.push(new_val);
            i = i + 1;
        }
    }

    /// All the round-key words of the cipher.
    pub fn key(&self) -> (r: &Vec<u32>)
        ensures
            r@ == self.schedule(),
    {
        &self.key
    }

    /// All the round-key words of the equivalent inverse cipher.
    pub fn inv_key(&self) -> (r: &Vec<u32>)
        ensures
            r@ == self.inv_schedule(),
    {
        &self.inverse_key
    }

    /// The four words of the cipher's schedule from `base` on.
    pub fn next_words(&self, base: usize) -> (r: &[u32])
        requires
            base + 4 <= self.schedule().len(),
        ensures
            r@ == self.schedule().subrange(base as int, base + 4),
    {
        let len = self.key.len();
        assert(base + 4 <= len);
        vstd::slice::slice_subrange(self.key.as_slice(), base, base + 4)
    }

    /// The four words of the inverse cipher's schedule from `base` on.
    pub fn next_words_inv(&self, base: usize) -> (r: &[u32])
        requires
            base + 4 <= self.inv_schedule().len(),
        ensures
            r@ == self.inv_schedule().subrange(base as int, base + 4),
    {
        let len = self.inverse_key.len();
        assert(base + 4 <= len);
        vstd::slice::slice_subrange(self.inverse_key.as_slice(), base, base + 4)
    }

    /// The number of rounds: 10, 12 or 14 for a key of 4, 6 or 8 words.
    pub fn rounds(&self) -> (r: usize)
        ensures
            r == self.spec_rounds(),
    {
        self.rounds
    }
}

} // verus!
