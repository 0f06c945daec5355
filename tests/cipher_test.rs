use aes_s::aes_matrix::AesMatrix;
use aes_s::cipher::Cipher;
use aes_s::key_manager::KeyManager;
use aes_s::math::Math;

const PLAINTEXT: [u8; 16] = [
    0x00, 0x11, 0x22, 0x33, 0x44, 0x55, 0x66, 0x77, 0x88, 0x99, 0xaa, 0xbb, 0xcc, 0xdd, 0xee, 0xff,
];

fn sample_blocks() -> Vec<[u8; 16]> {
    let mut blocks = vec![[0u8; 16], [0xffu8; 16], PLAINTEXT];
    let mut state: u32 = 0x1234_5678;
    for _ in 0..32 {
        let mut block = [0u8; 16];
        for b in block.iter_mut() {
            state = state.wrapping_mul(1_103_515_245).wrapping_add(12_345);
            *b = (state >> 24) as u8;
        }
        blocks.push(block);
    }
    blocks
}

#[test]
fn known_answer_128() {
    let cipher = Cipher::new_128(&[0x00010203, 0x04050607, 0x08090a0b, 0x0c0d0e0f]);
    let mut block = PLAINTEXT;
    cipher.cipher(&mut block);
    assert_eq!(
        block,
        [
            0x69, 0xc4, 0xe0, 0xd8, 0x6a, 0x7b, 0x04, 0x30, 0xd8, 0xcd, 0xb7, 0x80, 0x70, 0xb4,
            0xc5, 0x5a
        ]
    );
    cipher.decipher(&mut block);
    assert_eq!(block, PLAINTEXT);
}

#[test]
fn known_answer_192() {
    let cipher = Cipher::new_192(&[
        0x00010203, 0x04050607, 0x08090a0b, 0x0c0d0e0f, 0x10111213, 0x14151617,
    ]);
    let mut block = PLAINTEXT;
    cipher.cipher(&mut block);
    assert_eq!(
        block,
        [
            0xdd, 0xa9, 0x7c, 0xa4, 0x86, 0x4c, 0xdf, 0xe0, 0x6e, 0xaf, 0x70, 0xa0, 0xec, 0x0d,
            0x71, 0x91
        ]
    );
    cipher.decipher(&mut block);
    assert_eq!(block, PLAINTEXT);
}

#[test]
fn known_answer_256() {
    let cipher = Cipher::new_256(&[
        0x00010203, 0x04050607, 0x08090a0b, 0x0c0d0e0f, 0x10111213, 0x14151617, 0x18191a1b,
        0x1c1d1e1f,
    ]);
    let mut block = PLAINTEXT;
    cipher.cipher(&mut block);
    assert_eq!(
        block,
        [
            0x8e, 0xa2, 0xb7, 0xca, 0x51, 0x67, 0x45, 0xbf, 0xea, 0xfc, 0x49, 0x90, 0x4b, 0x49,
            0x60, 0x89
        ]
    );
    cipher.decipher(&mut block);
    assert_eq!(block, PLAINTEXT);
}

#[test]
fn round_trip_all_key_sizes() {
    let ciphers = [
        Cipher::new_128(&[0x2b7e1516, 0x28aed2a6, 0xabf71588, 0x09cf4f3c]),
        Cipher::new_192(&[0x8e73b0f7, 0xda0e6452, 0xc810f32b, 0x809079e5, 0x62f8ead2, 0x522c6b7b]),
        Cipher::new_256(&[
            0x603deb10, 0x15ca71be, 0x2b73aef0, 0x857d7781, 0x1f352c07, 0x3b6108d7, 0x2d9810a3,
            0x0914dff4,
        ]),
    ];
    for cipher in ciphers.iter() {
        for block in sample_blocks() {
            let mut work = block;
            cipher.cipher(&mut work);
            assert_ne!(work, block);
            cipher.decipher(&mut work);
            assert_eq!(work, block);
            cipher.decipher(&mut work);
            cipher.cipher(&mut work);
            assert_eq!(work, block);
        }
    }
}

#[test]
fn schedule_lengths_and_words() {
    let k128 = KeyManager::new_128(&[0x2b7e1516, 0x28aed2a6, 0xabf71588, 0x09cf4f3c]);
    assert_eq!(k128.rounds(), 10);
    assert_eq!(k128.key().len(), 44);
    assert_eq!(k128.inv_key().len(), 44);
    assert_eq!(k128.key()[0], 0x2b7e1516);
    assert_eq!(k128.key()[4], 0xa0fafe17);
    assert_eq!(k128.key()[43], 0xb6630ca6);

    let k192 = KeyManager::new_192(&[
        0x8e73b0f7, 0xda0e6452, 0xc810f32b, 0x809079e5, 0x62f8ead2, 0x522c6b7b,
    ]);
    assert_eq!(k192.rounds(), 12);
    assert_eq!(k192.key().len(), 52);
    assert_eq!(k192.inv_key().len(), 52);
    assert_eq!(k192.key()[6], 0xfe0c91f7);
    assert_eq!(k192.key()[51], 0x01002202);

    let k256 = KeyManager::new_256(&[
        0x603deb10, 0x15ca71be, 0x2b73aef0, 0x857d7781, 0x1f352c07, 0x3b6108d7, 0x2d9810a3,
        0x0914dff4,
    ]);
    assert_eq!(k256.rounds(), 14);
    assert_eq!(k256.key().len(), 60);
    assert_eq!(k256.inv_key().len(), 60);
    assert_eq!(k256.key()[8], 0x9ba35411);
    assert_eq!(k256.key()[12], 0xa8b09c1a);
    assert_eq!(k256.key()[59], 0x706c631e);
}

#[test]
fn windows_of_the_schedules() {
    let km = KeyManager::new_128(&[0x2b7e1516, 0x28aed2a6, 0xabf71588, 0x09cf4f3c]);
    assert_eq!(km.next_words(0), &[0x2b7e1516, 0x28aed2a6, 0xabf71588, 0x09cf4f3c]);
    assert_eq!(km.next_words(4), &km.key()[4..8]);
    assert_eq!(km.next_words(40), &km.key()[40..44]);
    assert_eq!(km.next_words_inv(8), &km.inv_key()[8..12]);
    for (w, iw) in km.key().iter().zip(km.inv_key().iter()) {
        let mut columns = [*w, 0, 0, 0];
        AesMatrix::inv_mix_column_a(&mut columns, 0);
        assert_eq!(columns[0], *iw);
    }
}

#[test]
fn inverse_mixes_one_word() {
    let mut columns: [u32; 4] = [0x11111111, 0x8e4da1bc, 0x9fdc589d, 0x01010101];
    AesMatrix::inv_mix_column_a(&mut columns, 1);
    assert_eq!(columns, [0x11111111, 0xdb135345, 0x9fdc589d, 0x01010101]);
    AesMatrix::inv_mix_column_a(&mut columns, 2);
    assert_eq!(columns, [0x11111111, 0xdb135345, 0xf20a225c, 0x01010101]);
}

#[test]
fn substitution_inverse_on_every_byte() {
    for start in (0..256).step_by(16) {
        let mut block = [0u8; 16];
        for (i, b) in block.iter_mut().enumerate() {
            *b = (start + i) as u8;
        }
        let before = block;
        AesMatrix::substitute_bytes_8(&mut block);
        assert_ne!(block, before);
        AesMatrix::inv_substitute_bytes_8(&mut block);
        assert_eq!(block, before);
    }
}

#[test]
fn shift_and_mix_inverses() {
    for block in sample_blocks() {
        let mut work = block;
        AesMatrix::shift_rows_8(&mut work);
        AesMatrix::inv_shift_rows_8(&mut work);
        assert_eq!(work, block);
        AesMatrix::mix_columns_8(&mut work);
        AesMatrix::inv_mix_columns_8(&mut work);
        assert_eq!(work, block);
    }
}

#[test]
fn inv_shift_rows_moves_rows_right() {
    let mut content: [u8; 16] = [
        0x00, 0x05, 0x0a, 0x0f, 0x04, 0x09, 0x0e, 0x03, 0x08, 0x0d, 0x02, 0x07, 0x0c, 0x01, 0x06,
        0x0b,
    ];
    AesMatrix::inv_shift_rows_8(&mut content);
    let expected: [u8; 16] = core::array::from_fn(|i| i as u8);
    assert_eq!(content, expected);
}

#[test]
fn add_round_key_twice_restores() {
    let words = [0xd6aa74fd, 0xd2af72fa, 0xdaa678f1, 0xd6ab76fe, 0xffffffff];
    for block in sample_blocks() {
        let mut work = block;
        AesMatrix::add_round_key_8(&mut work, &words);
        AesMatrix::add_round_key_8(&mut work, &words);
        assert_eq!(work, block);
    }
}

#[test]
fn field_multiplications() {
    assert_eq!(Math::x_time(0x57), 0xae);
    assert_eq!(Math::x_time(0xae), 0x47);
    assert_eq!(Math::x_time(0x47), 0x8e);
    assert_eq!(Math::x_time(0x8e), 0x07);
    assert_eq!(Math::multiplication_by_03(0x57), 0xf9);
    assert_eq!(Math::multiplication_by_09(0x01), 0x09);
    assert_eq!(Math::multiplication_by_0b(0x01), 0x0b);
    assert_eq!(Math::multiplication_by_0d(0x01), 0x0d);
    assert_eq!(Math::multiplication_by_0e(0x01), 0x0e);
    assert_eq!(Math::multiplication_by_0e(0x57), 0x67);
}

#[test]
fn word_helpers() {
    let mut w: u32 = 0x09cf4f3c;
    Math::rot_word(&mut w);
    assert_eq!(w, 0xcf4f3c09);
    Math::substitute_bytes_word(&mut w);
    assert_eq!(w, 0x8a84eb01);
    assert_eq!(Math::word_to_bytes(0x01020304), (1, 2, 3, 4));
    assert_eq!(Math::bytes_to_word(1, 2, 3, 4), 0x01020304);
    assert_eq!(aes_s::sbox::s_box(0x53), 0xed);
    assert_eq!(aes_s::sbox::inv_s_box(0xed), 0x53);
}
