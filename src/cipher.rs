//! Encryption and equivalent-inverse decryption of one 16-byte block.
use vstd::prelude::*;

use crate::aes_matrix::{
    add_round_key, inv_mix_columns, inv_shift_rows, inv_sub_bytes, lemma_add_round_key_twice,
    lemma_inv_mix_columns_add_round_key, lemma_inv_mix_columns_mix_columns,
    lemma_mix_columns_inv_mix_columns, lemma_redo_sub_shift, lemma_undo_sub_shift,
    mix_columns, shift_rows, sub_bytes, AesMatrix,
};
use crate::key_manager::{inverse_schedule, key_schedule, KeyManager};

verus! {

/// The four words of round `r` in schedule `w`.
pub open spec fn round_key(w: Seq<u32>, r: int) -> Seq<u32> {
    w.subrange(4 * r, 4 * r + 4)
}

/// The state after the initial key addition and `r` full rounds.
pub open spec fn encrypt_rounds(w: Seq<u32>, s: Seq<u8>, r: nat) -> Seq<u8>
    decreases r,
{
    if r == 0 {
        add_round_key(s, round_key(w, 0))
    } else {
        add_round_key(
            mix_columns(shift_rows(sub_bytes(encrypt_rounds(w, s, (r - 1) as nat)))),
            round_key(w, r as int),
        )
    }
}

/// The cipher of block `s` in `nr` rounds under schedule `w`: the last round
/// has no mix-columns.
pub open spec fn encrypt_block(w: Seq<u32>, nr: nat, s: Seq<u8>) -> Seq<u8> {
    add_round_key(
        shift_rows(sub_bytes(encrypt_rounds(w, s, (nr - 1) as nat))),
        round_key(w, nr as int),
    )
}

/// The state of the equivalent inverse cipher once the rounds from `nr - 1`
/// down to `r` have been applied; `iw` holds the inverse-mixed round keys.
pub open spec fn decrypt_rounds(w: Seq<u32>, iw: Seq<u32>, nr: nat, s: Seq<u8>, r: nat) -> Seq<u8>
    decreases nr - r,
{
    if r >= nr {
        add_round_key(s, round_key(w, nr as int))
    } else {
        add_round_key(
            inv_mix_columns(inv_shift_rows(inv_sub_bytes(decrypt_rounds(w, iw, nr, s, r + 1)))),
            round_key(iw, r as int),
        )
    }
}

/// The equivalent inverse cipher of block `s`: the first and last key
/// additions read `w`, the rounds in between read `iw`.
pub open spec fn decrypt_block(w: Seq<u32>, iw: Seq<u32>, nr: nat, s: Seq<u8>) -> Seq<u8> {
    add_round_key(inv_shift_rows(inv_sub_bytes(decrypt_rounds(w, iw, nr, s, 1))), round_key(w, 0))
}

/// The round key of the inverse schedule is the inverse-mixed round key.
proof fn lemma_inverse_round_key(w: Seq<u32>, r: int)
    requires
        0 <= r,
        4 * r + 4 <= w.len(),
    ensures
        round_key(inverse_schedule(w), r) == round_key(w, r).map_values(
            |x: u32| crate::math::inv_mix_word(x),
        ),
{
    assert(round_key(inverse_schedule(w), r) =~= round_key(w, r).map_values(
        |x: u32| crate::math::inv_mix_word(x),
    ));
}

/// While the inverse cipher runs on the cipher of `s`, its state before the
/// rounds from `r` down is the cipher's state after round `r` with the next
/// substitution and shift-rows applied.
proof fn lemma_decrypt_tracks_encrypt(w: Seq<u32>, nr: nat, s: Seq<u8>, r: nat)
    requires
        r < nr,
        w.len() == 4 * (nr + 1),
        s.len() == 16,
    ensures
        decrypt_rounds(w, inverse_schedule(w), nr, encrypt_block(w, nr, s), r + 1)
            == shift_rows(sub_bytes(encrypt_rounds(w, s, r))),
    decreases nr - r,
{
    let iw = inverse_schedule(w);
    if r + 1 == nr {
        lemma_add_round_key_twice(
            shift_rows(sub_bytes(encrypt_rounds(w, s, r))),
            round_key(w, nr as int),
        );
    } else {
        lemma_decrypt_tracks_encrypt(w, nr, s, r + 1);
        let y = shift_rows(sub_bytes(encrypt_rounds(w, s, r)));
        let k = round_key(w, r + 1 as int);
        lemma_undo_sub_shift(encrypt_rounds(w, s, r + 1));
        lemma_inv_mix_columns_add_round_key(mix_columns(y), k);
        lemma_inv_mix_columns_mix_columns(y);
        lemma_inverse_round_key(w, r + 1 as int);
        lemma_add_round_key_twice(y, round_key(iw, r + 1 as int));
    }
}

/// The inverse cipher undoes the cipher, for any schedule of the right length.
pub proof fn lemma_decrypt_encrypt(w: Seq<u32>, nr: nat, s: Seq<u8>)
    requires
        nr >= 1,
        w.len() == 4 * (nr + 1),
        s.len() == 16,
    ensures
        decrypt_block(w, inverse_schedule(w), nr, encrypt_block(w, nr, s)) == s,
{
    lemma_decrypt_tracks_encrypt(w, nr, s, 0);
    lemma_undo_sub_shift(encrypt_rounds(w, s, 0));
    lemma_add_round_key_twice(s, round_key(w, 0));
}

/// While the cipher runs on the inverse cipher of `s`, its state after round
/// `r` is the inverse cipher's state before the rounds from `r` down, with the
/// next inverse substitution and inverse shift-rows applied.
proof fn lemma_encrypt_tracks_decrypt(w: Seq<u32>, nr: nat, s: Seq<u8>, r: nat)
    requires
        r < nr,
        w.len() == 4 * (nr + 1),
        s.len() == 16,
    ensures
        encrypt_rounds(w, decrypt_block(w, inverse_schedule(w), nr, s), r) == inv_shift_rows(
            inv_sub_bytes(decrypt_rounds(w, inverse_schedule(w), nr, s, r + 1)),
        ),
    decreases r,
{
    let iw = inverse_schedule(w);
    if r == 0 {
        lemma_add_round_key_twice(
            inv_shift_rows(inv_sub_bytes(decrypt_rounds(w, iw, nr, s, 1))),
            round_key(w, 0),
        );
    } else {
        lemma_encrypt_tracks_decrypt(w, nr, s, (r - 1) as nat);
        let y = inv_shift_rows(inv_sub_bytes(decrypt_rounds(w, iw, nr, s, r + 1)));
        let k = round_key(w, r as int);
        lemma_redo_sub_shift(decrypt_rounds(w, iw, nr, s, r));
        lemma_inv_mix_columns_add_round_key(y, k);
        lemma_inverse_round_key(w, r as int);
        lemma_mix_columns_inv_mix_columns(add_round_key(y, k));
        lemma_add_round_key_twice(y, k);
    }
}

/// The cipher undoes the inverse cipher, for any schedule of the right length.
pub proof fn lemma_encrypt_decrypt(w: Seq<u32>, nr: nat, s: Seq<u8>)
    requires
        nr >= 1,
        w.len() == 4 * (nr + 1),
        s.len() == 16,
    ensures
        encrypt_block(w, nr, decrypt_block(w, inverse_schedule(w), nr, s)) == s,
{
    lemma_encrypt_tracks_decrypt(w, nr, s, (nr - 1) as nat);
    lemma_redo_sub_shift(decrypt_rounds(w, inverse_schedule(w), nr, s, nr));
    lemma_add_round_key_twice(s, round_key(w, nr as int));
}

/// A block cipher bound to one key of 128, 192 or 256 bits; the key schedule
/// is computed once, when the cipher is made.
pub struct Cipher {
    key_manager: KeyManager,
}

impl Cipher {
    pub closed spec fn manager(&self) -> KeyManager {
        self.key_manager
    }

    /// The number of rounds.
    pub open spec fn spec_rounds(&self) -> nat {
        self.manager().spec_rounds()
    }

    /// The round-key words.
    pub open spec fn schedule(&self) -> Seq<u32> {
        self.manager().schedule()
    }

    pub open spec fn wf(&self) -> bool {
        self.manager().wf()
    }

    /// Every cipher holds a well-formed key schedule.
    #[verifier::type_invariant]
    spec fn schedule_wf(&self) -> bool {
        self.key_manager.wf()
    }

    /// What `cipher` makes of a block.
    pub open spec fn encrypt(&self, s: Seq<u8>) -> Seq<u8> {
        encrypt_block(self.schedule(), self.spec_rounds(), s)
    }

    /// What `decipher` makes of a block.
    pub open spec fn decrypt(&self, s: Seq<u8>) -> Seq<u8> {
        decrypt_block(self.schedule(), inverse_schedule(self.schedule()), self.spec_rounds(), s)
    }

    pub fn new_128(key: &[u32; 4]) -> (r: Cipher)
        ensures
            r.wf(),
            r.spec_rounds() == 10,
            r.schedule() == key_schedule(key@),
    {
        Cipher { key_manager: KeyManager::new_128(key) }
    }

    pub fn new_192(key: &[u32; 6]) -> (r: Cipher)
        ensures
            r.wf(),
            r.spec_rounds() == 12,
            r.schedule() == key_schedule(key@),
    {
        Cipher { key_manager: KeyManager::new_192(key) }
    }

    pub fn new_256(key: &[u32; 8]) -> (r: Cipher)
        ensures
            r.wf(),
            r.spec_rounds() == 14,
            r.schedule() == key_schedule(key@),
    {
        Cipher { key_manager: KeyManager::new_256(key) }
    }

    /// Encrypts a block in place.
    pub fn cipher(&self, input: &mut [u8; 16])
        ensures
            final(input)@ == self.encrypt(old(input)@),
    {
        proof {
            use_type_invariant(self);
        }
        let ghost s = input@;
        let ghost w = self.schedule();
        let nr = self.key_manager.rounds();
        AesMatrix::add_round_key_8(input, self.key_manager.next_words(0));
        let mut round: usize = 0;
        while round < nr - 1
            invariant
                self.wf(),
                nr == self.spec_rounds(),
                w == self.schedule(),
                round < nr,
                input@ == encrypt_rounds(w, s, round as nat),
            decreases nr - 1 - round,
        {
            AesMatrix::substitute_bytes_8(input);
            AesMatrix::shift_rows_8(input);
            AesMatrix::mix_columns_8(input);
            AesMatrix::add_round_key_8(input, self.key_manager.next_words((round + 1) * 4));
            round = round + 1;
        }
        AesMatrix::substitute_bytes_8(input);
        AesMatrix::shift_rows_8(input);
        AesMatrix::add_round_key_8(input, self.key_manager.next_words(nr * 4));
    }

    /// Decrypts a block in place with the equivalent inverse cipher.
    pub fn decipher(&self, input: &mut [u8; 16])
        ensures
            final(input)@ == self.decrypt(old(input)@),
    {
        proof {
            use_type_invariant(self);
        }
        let ghost s = input@;
        let ghost w = self.schedule();
        let ghost iw = inverse_schedule(w);
        let nr = self.key_manager.rounds();
        AesMatrix::add_round_key_8(input, self.key_manager.next_words(nr * 4));
        let mut round: usize = nr;
        while round > 1
            invariant
                self.wf(),
                nr == self.spec_rounds(),
                w == self.schedule(),
                iw == self.manager().inv_schedule(),
                1 <= round <= nr,
                input@ == decrypt_rounds(w, iw, nr as nat, s, round as nat),
            decreases round,
        {
            round = round - 1;
            AesMatrix::inv_substitute_bytes_8(input);
            AesMatrix::inv_shift_rows_8(input);
            AesMatrix::inv_mix_columns_8(input);
            AesMatrix::add_round_key_8(input, self.key_manager.next_words_inv(round * 4));
        }
        AesMatrix::inv_substitute_bytes_8(input);
        AesMatrix::inv_shift_rows_8(input);
        AesMatrix::add_round_key_8(input, self.key_manager.next_words(0));
    }
}

/// Deciphering the cipher of a block gives the block back, for every key of
/// each size.
pub proof fn lemma_decipher_cipher(c: Cipher, block: Seq<u8>)
    requires
        c.wf(),
        block.len() == 16,
    ensures
        c.decrypt(c.encrypt(block)) == block,
{
    lemma_decrypt_encrypt(c.schedule(), c.spec_rounds(), block);
}

/// Ciphering the decipher of a block gives the block back, for every key of
/// each size.
pub proof fn lemma_cipher_decipher(c: Cipher, block: Seq<u8>)
    requires
        c.wf(),
        block.len() == 16,
    ensures
        c.encrypt(c.decrypt(block)) == block,
{
    lemma_encrypt_decrypt(c.schedule(), c.spec_rounds(), block);
}

} // verus!
