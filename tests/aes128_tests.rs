use aes128_rdx_bc_fhe::bytewise::{Circuits, mix_cols, sbox_idx, sbox_inv_idx};
use aes128_rdx_bc_fhe::cipher::{
    BlockError, decrypt_block_fhe, decrypt_one_block_fhe, encrypt_block_fhe, encrypt_one_block_fhe,
};
use aes128_rdx_bc_fhe::circuit::{
    Gate, GateOp, Program, ProgramError, evaluate, execute, execute_pooled,
};
use aes128_rdx_bc_fhe::codec::{PosVals, decompose, recompose};
use aes128_rdx_bc_fhe::engine::ClearEngine;

use aes::Aes128;
use aes::cipher::{BlockEncrypt, KeyInit, generic_array::GenericArray};
use rand::RngCore;
use rand::rngs::OsRng;

const SBOX: [u8; 256] = [
    0x63, 0x7c, 0x77, 0x7b, 0xf2, 0x6b, 0x6f, 0xc5, 0x30, 0x01, 0x67, 0x2b, 0xfe, 0xd7, 0xab, 0x76,
    0xca, 0x82, 0xc9, 0x7d, 0xfa, 0x59, 0x47, 0xf0, 0xad, 0xd4, 0xa2, 0xaf, 0x9c, 0xa4, 0x72, 0xc0,
    0xb7, 0xfd, 0x93, 0x26, 0x36, 0x3f, 0xf7, 0xcc, 0x34, 0xa5, 0xe5, 0xf1, 0x71, 0xd8, 0x31, 0x15,
    0x04, 0xc7, 0x23, 0xc3, 0x18, 0x96, 0x05, 0x9a, 0x07, 0x12, 0x80, 0xe2, 0xeb, 0x27, 0xb2, 0x75,
    0x09, 0x83, 0x2c, 0x1a, 0x1b, 0x6e, 0x5a, 0xa0, 0x52, 0x3b, 0xd6, 0xb3, 0x29, 0xe3, 0x2f, 0x84,
    0x53, 0xd1, 0x00, 0xed, 0x20, 0xfc, 0xb1, 0x5b, 0x6a, 0xcb, 0xbe, 0x39, 0x4a, 0x4c, 0x58, 0xcf,
    0xd0, 0xef, 0xaa, 0xfb, 0x43, 0x4d, 0x33, 0x85, 0x45, 0xf9, 0x02, 0x7f, 0x50, 0x3c, 0x9f, 0xa8,
    0x51, 0xa3, 0x40, 0x8f, 0x92, 0x9d, 0x38, 0xf5, 0xbc, 0xb6, 0xda, 0x21, 0x10, 0xff, 0xf3, 0xd2,
    0xcd, 0x0c, 0x13, 0xec, 0x5f, 0x97, 0x44, 0x17, 0xc4, 0xa7, 0x7e, 0x3d, 0x64, 0x5d, 0x19, 0x73,
    0x60, 0x81, 0x4f, 0xdc, 0x22, 0x2a, 0x90, 0x88, 0x46, 0xee, 0xb8, 0x14, 0xde, 0x5e, 0x0b, 0xdb,
    0xe0, 0x32, 0x3a, 0x0a, 0x49, 0x06, 0x24, 0x5c, 0xc2, 0xd3, 0xac, 0x62, 0x91, 0x95, 0xe4, 0x79,
    0xe7, 0xc8, 0x37, 0x6d, 0x8d, 0xd5, 0x4e, 0xa9, 0x6c, 0x56, 0xf4, 0xea, 0x65, 0x7a, 0xae, 0x08,
    0xba, 0x78, 0x25, 0x2e, 0x1c, 0xa6, 0xb4, 0xc6, 0xe8, 0xdd, 0x74, 0x1f, 0x4b, 0xbd, 0x8b, 0x8a,
    0x70, 0x3e, 0xb5, 0x66, 0x48, 0x03, 0xf6, 0x0e, 0x61, 0x35, 0x57, 0xb9, 0x86, 0xc1, 0x1d, 0x9e,
    0xe1, 0xf8, 0x98, 0x11, 0x69, 0xd9, 0x8e, 0x94, 0x9b, 0x1e, 0x87, 0xe9, 0xce, 0x55, 0x28, 0xdf,
    0x8c, 0xa1, 0x89, 0x0d, 0xbf, 0xe6, 0x42, 0x68, 0x41, 0x99, 0x2d, 0x0f, 0xb0, 0x54, 0xbb, 0x16,
];

const SBOX_INV: [u8; 256] = [
    0x52, 0x09, 0x6a, 0xd5, 0x30, 0x36, 0xa5, 0x38, 0xbf, 0x40, 0xa3, 0x9e, 0x81, 0xf3, 0xd7, 0xfb,
    0x7c, 0xe3, 0x39, 0x82, 0x9b, 0x2f, 0xff, 0x87, 0x34, 0x8e, 0x43, 0x44, 0xc4, 0xde, 0xe9, 0xcb,
    0x54, 0x7b, 0x94, 0x32, 0xa6, 0xc2, 0x23, 0x3d, 0xee, 0x4c, 0x95, 0x0b, 0x42, 0xfa, 0xc3, 0x4e,
    0x08, 0x2e, 0xa1, 0x66, 0x28, 0xd9, 0x24, 0xb2, 0x76, 0x5b, 0xa2, 0x49, 0x6d, 0x8b, 0xd1, 0x25,
    0x72, 0xf8, 0xf6, 0x64, 0x86, 0x68, 0x98, 0x16, 0xd4, 0xa4, 0x5c, 0xcc, 0x5d, 0x65, 0xb6, 0x92,
    0x6c, 0x70, 0x48, 0x50, 0xfd, 0xed, 0xb9, 0xda, 0x5e, 0x15, 0x46, 0x57, 0xa7, 0x8d, 0x9d, 0x84,
    0x90, 0xd8, 0xab, 0x00, 0x8c, 0xbc, 0xd3, 0x0a, 0xf7, 0xe4, 0x58, 0x05, 0xb8, 0xb3, 0x45, 0x06,
    0xd0, 0x2c, 0x1e, 0x8f, 0xca, 0x3f, 0x0f, 0x02, 0xc1, 0xaf, 0xbd, 0x03, 0x01, 0x13, 0x8a, 0x6b,
    0x3a, 0x91, 0x11, 0x41, 0x4f, 0x67, 0xdc, 0xea, 0x97, 0xf2, 0xcf, 0xce, 0xf0, 0xb4, 0xe6, 0x73,
    0x96, 0xac, 0x74, 0x22, 0xe7, 0xad, 0x35, 0x85, 0xe2, 0xf9, 0x37, 0xe8, 0x1c, 0x75, 0xdf, 0x6e,
    0x47, 0xf1, 0x1a, 0x71, 0x1d, 0x29, 0xc5, 0x89, 0x6f, 0xb7, 0x62, 0x0e, 0xaa, 0x18, 0xbe, 0x1b,
    0xfc, 0x56, 0x3e, 0x4b, 0xc6, 0xd2, 0x79, 0x20, 0x9a, 0xdb, 0xc0, 0xfe, 0x78, 0xcd, 0x5a, 0xf4,
    0x1f, 0xdd, 0xa8, 0x33, 0x88, 0x07, 0xc7, 0x31, 0xb1, 0x12, 0x10, 0x59, 0x27, 0x80, 0xec, 0x5f,
    0x60, 0x51, 0x7f, 0xa9, 0x19, 0xb5, 0x4a, 0x0d, 0x2d, 0xe5, 0x7a, 0x9f, 0x93, 0xc9, 0x9c, 0xef,
    0xa0, 0xe0, 0x3b, 0x4d, 0xae, 0x2a, 0xf5, 0xb0, 0xc8, 0xeb, 0xbb, 0x3c, 0x83, 0x53, 0x99, 0x61,
    0x17, 0x2b, 0x04, 0x7e, 0xba, 0x77, 0xd6, 0x26, 0xe1, 0x69, 0x14, 0x63, 0x55, 0x21, 0x0c, 0x7d,
];

const KEY_000102_ENC: [u8; 176] = [
    0x00, 0x01, 0x02, 0x03, 0x04, 0x05, 0x06, 0x07, 0x08, 0x09, 0x0a, 0x0b, 0x0c, 0x0d, 0x0e, 0x0f,
    0xd6, 0xaa, 0x74, 0xfd, 0xd2, 0xaf, 0x72, 0xfa, 0xda, 0xa6, 0x78, 0xf1, 0xd6, 0xab, 0x76, 0xfe,
    0xb6, 0x92, 0xcf, 0x0b, 0x64, 0x3d, 0xbd, 0xf1, 0xbe, 0x9b, 0xc5, 0x00, 0x68, 0x30, 0xb3, 0xfe,
    0xb6, 0xff, 0x74, 0x4e, 0xd2, 0xc2, 0xc9, 0xbf, 0x6c, 0x59, 0x0c, 0xbf, 0x04, 0x69, 0xbf, 0x41,
    0x47, 0xf7, 0xf7, 0xbc, 0x95, 0x35, 0x3e, 0x03, 0xf9, 0x6c, 0x32, 0xbc, 0xfd, 0x05, 0x8d, 0xfd,
    0x3c, 0xaa, 0xa3, 0xe8, 0xa9, 0x9f, 0x9d, 0xeb, 0x50, 0xf3, 0xaf, 0x57, 0xad, 0xf6, 0x22, 0xaa,
    0x5e, 0x39, 0x0f, 0x7d, 0xf7, 0xa6, 0x92, 0x96, 0xa7, 0x55, 0x3d, 0xc1, 0x0a, 0xa3, 0x1f, 0x6b,
    0x14, 0xf9, 0x70, 0x1a, 0xe3, 0x5f, 0xe2, 0x8c, 0x44, 0x0a, 0xdf, 0x4d, 0x4e, 0xa9, 0xc0, 0x26,
    0x47, 0x43, 0x87, 0x35, 0xa4, 0x1c, 0x65, 0xb9, 0xe0, 0x16, 0xba, 0xf4, 0xae, 0xbf, 0x7a, 0xd2,
    0x54, 0x99, 0x32, 0xd1, 0xf0, 0x85, 0x57, 0x68, 0x10, 0x93, 0xed, 0x9c, 0xbe, 0x2c, 0x97, 0x4e,
    0x13, 0x11, 0x1d, 0x7f, 0xe3, 0x94, 0x4a, 0x17, 0xf3, 0x07, 0xa7, 0x8b, 0x4d, 0x2b, 0x30, 0xc5,
];

const RCON: [u8; 10] = [0x01, 0x02, 0x04, 0x08, 0x10, 0x20, 0x40, 0x80, 0x1b, 0x36];

fn key_expansion(key: &[u8; 16]) -> [u8; 176] {
    let mut xk = [0u8; 176];
    xk[..16].copy_from_slice(key);
    for i in 4..44 {
        let mut t = [xk[4 * i - 4], xk[4 * i - 3], xk[4 * i - 2], xk[4 * i - 1]];
        if i % 4 == 0 {
            t = [
                SBOX[t[1] as usize] ^ RCON[i / 4 - 1],
                SBOX[t[2] as usize],
                SBOX[t[3] as usize],
                SBOX[t[0] as usize],
            ];
        }
        for j in 0..4 {
            xk[4 * i + j] = xk[4 * i - 16 + j] ^ t[j];
        }
    }
    xk
}

fn mix_column_of(c1_pre: [u8; 4]) -> [u8; 4] {
    let e = ClearEngine;
    let c = Circuits::new();
    let pos_vals = PosVals::new(&e);
    let col = vec![c1_pre[0], c1_pre[1], c1_pre[2], c1_pre[3]];
    let out = mix_cols(&col, &pos_vals, &e, &c);
    [out[0], out[1], out[2], out[3]]
}

#[test]
fn test_key_expansion() {
    let key: [u8; 16] = [
        0x00, 0x01, 0x02, 0x03, 0x04, 0x05, 0x06, 0x07, 0x08, 0x09, 0x0a, 0x0b, 0x0c, 0x0d, 0x0e,
        0x0f,
    ];
    let xk = key_expansion(&key);
    for (j, &v) in xk.iter().enumerate() {
        assert_eq!(v, KEY_000102_ENC[j], "enc[{}] = {:#x}, want {:#x}", j, v, KEY_000102_ENC[j]);
    }
}

#[test]
fn test_encrypt_block_tfhe1() {
    let plaintext: [u8; 16] = [
        0x00, 0x11, 0x22, 0x33, 0x44, 0x55, 0x66, 0x77, 0x88, 0x99, 0xaa, 0xbb, 0xcc, 0xdd, 0xee,
        0xff,
    ];
    let key: [u8; 16] = [
        0x00, 0x01, 0x02, 0x03, 0x04, 0x05, 0x06, 0x07, 0x08, 0x09, 0x0a, 0x0b, 0x0c, 0x0d, 0x0e,
        0x0f,
    ];
    let expected_ciphertext: [u8; 16] = [
        0x69, 0xc4, 0xe0, 0xd8, 0x6a, 0x7b, 0x04, 0x30, 0xd8, 0xcd, 0xb7, 0x80, 0x70, 0xb4, 0xc5,
        0x5a,
    ];
    let xk = key_expansion(&key);
    let mut dst = [0u8; 16];
    encrypt_block_fhe(&plaintext, &xk, &mut dst, 1);
    assert_eq!(dst, expected_ciphertext, "Encryption failed\nExpected: {:x?}\nGot: {:x?}", expected_ciphertext, dst);
}

#[test]
fn test_decrypt_block_tfhe1() {
    let ciphertext: [u8; 16] = [
        0x69, 0xc4, 0xe0, 0xd8, 0x6a, 0x7b, 0x04, 0x30, 0xd8, 0xcd, 0xb7, 0x80, 0x70, 0xb4, 0xc5,
        0x5a,
    ];
    let key: [u8; 16] = [
        0x00, 0x01, 0x02, 0x03, 0x04, 0x05, 0x06, 0x07, 0x08, 0x09, 0x0a, 0x0b, 0x0c, 0x0d, 0x0e,
        0x0f,
    ];
    let expected_plaintext: [u8; 16] = [
        0x00, 0x11, 0x22, 0x33, 0x44, 0x55, 0x66, 0x77, 0x88, 0x99, 0xaa, 0xbb, 0xcc, 0xdd, 0xee,
        0xff,
    ];
    let xk = key_expansion(&key);
    let mut dst = [0u8; 16];
    decrypt_block_fhe(&ciphertext, &xk, &mut dst, 1);
    assert_eq!(dst, expected_plaintext, "Encryption failed\nExpected: {:x?}\nGot: {:x?}", expected_plaintext, dst);
}

#[test]
fn test_encrypt_block_tfhe2() {
    let plaintext: [u8; 16] = [
        0x6B, 0xC1, 0xBE, 0xE2, 0x2E, 0x40, 0x9F, 0x96, 0xE9, 0x3D, 0x7E, 0x11, 0x73, 0x93, 0x17,
        0x2A,
    ];
    let key: [u8; 16] = [
        0x2B, 0x7E, 0x15, 0x16, 0x28, 0xAE, 0xD2, 0xA6, 0xAB, 0xF7, 0x15, 0x88, 0x09, 0xCF, 0x4F,
        0x3C,
    ];
    let expected_ciphertext: [u8; 16] = [
        0x3A, 0xD7, 0x7B, 0xB4, 0x0D, 0x7A, 0x36, 0x60, 0xA8, 0x9E, 0xCA, 0xF3, 0x24, 0x66, 0xEF,
        0x97,
    ];
    let xk = key_expansion(&key);
    let mut dst = [0u8; 16];
    encrypt_block_fhe(&plaintext, &xk, &mut dst, 1);
    assert_eq!(dst, expected_ciphertext, "Encryption failed\nExpected: {:x?}\nGot: {:x?}", expected_ciphertext, dst);
}

#[test]
fn test_decrypt_block_tfhe2() {
    let ciphertext: [u8; 16] = [
        0x3A, 0xD7, 0x7B, 0xB4, 0x0D, 0x7A, 0x36, 0x60, 0xA8, 0x9E, 0xCA, 0xF3, 0x24, 0x66, 0xEF,
        0x97,
    ];
    let key: [u8; 16] = [
        0x2B, 0x7E, 0x15, 0x16, 0x28, 0xAE, 0xD2, 0xA6, 0xAB, 0xF7, 0x15, 0x88, 0x09, 0xCF, 0x4F,
        0x3C,
    ];
    let expected_plaintext: [u8; 16] = [
        0x6B, 0xC1, 0xBE, 0xE2, 0x2E, 0x40, 0x9F, 0x96, 0xE9, 0x3D, 0x7E, 0x11, 0x73, 0x93, 0x17,
        0x2A,
    ];
    let xk = key_expansion(&key);
    let mut dst = [0u8; 16];
    decrypt_block_fhe(&ciphertext, &xk, &mut dst, 1);
    assert_eq!(dst, expected_plaintext, "Encryption failed\nExpected: {:x?}\nGot: {:x?}", expected_plaintext, dst);
}

#[test]
fn test_encrypt_decrypt_rnd_block() {
    let mut key = [0u8; 16];
    OsRng.fill_bytes(&mut key);
    let mut iv = [0u8; 16];
    OsRng.fill_bytes(&mut iv);

    let mut expected = GenericArray::from(iv);
    let cipher = Aes128::new(&GenericArray::from(key));
    cipher.encrypt_block(&mut expected);

    let xk = key_expansion(&key);
    let mut dst = [0u8; 16];
    encrypt_block_fhe(&iv, &xk, &mut dst, 1);
    assert_eq!(GenericArray::from(dst), expected, "Encryption failed\nExpected: {:x?}\nGot: {:x?}", expected, dst);

    let mut out = [0u8; 16];
    decrypt_block_fhe(&dst, &xk, &mut out, 1);
    assert_eq!(out, iv, "Encryption failed\nExpected: {:x?}\nGot: {:x?}", expected, out);
}

#[test]
fn test_sbox() {
    let e = ClearEngine;
    let c = Circuits::new();
    let pos_vals = PosVals::new(&e);
    for i in 0..256usize {
        let sbox_val = sbox_idx(&(i as u8), &pos_vals, &e, &c);
        assert!(sbox_val == SBOX[i], "i {:},  result {:x}", i, sbox_val);
    }
}

#[test]
fn test_sbox_inv() {
    let e = ClearEngine;
    let c = Circuits::new();
    let pos_vals = PosVals::new(&e);
    for i in 0..256usize {
        let sbox_val = sbox_inv_idx(&(i as u8), &pos_vals, &e, &c);
        assert!(sbox_val == SBOX_INV[i], "i {:},  result {:x}", i, sbox_val);
    }
}

#[test]
fn test_mix_cols_1() {
    assert_eq!(mix_column_of([0x01, 0x01, 0x01, 0x01]), [0x01, 0x01, 0x01, 0x01]);
}

#[test]
fn test_mix_cols_2() {
    assert_eq!(mix_column_of([0xc6, 0xc6, 0xc6, 0xc6]), [0xc6, 0xc6, 0xc6, 0xc6]);
}

#[test]
fn test_mix_cols_3() {
    assert_eq!(mix_column_of([0xd4, 0xbf, 0x5d, 0x30]), [0x04, 0x66, 0x81, 0xe5]);
}

#[test]
fn test_mix_cols_4() {
    assert_eq!(mix_column_of([0xe0, 0xb4, 0x52, 0xae]), [0xe0, 0xcb, 0x19, 0x9a]);
}

#[test]
fn codec_round_trip_every_byte() {
    let e = ClearEngine;
    let pos_vals = PosVals::new(&e);
    for v in 0..256usize {
        let bits = decompose(&e, &pos_vals, &(v as u8));
        for i in 0..8 {
            assert_eq!(bits[i], (v >> i) & 1 == 1);
        }
        assert_eq!(recompose(&e, &pos_vals, &bits), v as u8);
    }
}

#[test]
fn codec_constants() {
    let e = ClearEngine;
    let pos_vals = PosVals::new(&e);
    assert_eq!(pos_vals.get_p_b(), &vec![1u8, 2, 4, 8, 16, 32, 64, 128]);
    assert_eq!(*pos_vals.get_v_0(), 0u8);
}

#[test]
fn encrypt_one_block_rejects_wrong_sizes() {
    let e = ClearEngine;
    let c = Circuits::new();
    let pos_vals = PosVals::new(&e);
    let key = KEY_000102_ENC.to_vec();
    let mut short = vec![0u8; 15];
    assert_eq!(encrypt_one_block_fhe(&mut short, &key, &pos_vals, &e, &c), Err(BlockError::StateLength));
    assert_eq!(short, vec![0u8; 15]);
    let mut state = vec![0u8; 16];
    let short_key = vec![0u8; 175];
    assert_eq!(encrypt_one_block_fhe(&mut state, &short_key, &pos_vals, &e, &c), Err(BlockError::KeyLength));
    assert_eq!(decrypt_one_block_fhe(&mut state, &short_key, &pos_vals, &e, &c), Err(BlockError::KeyLength));
    assert_eq!(state, vec![0u8; 16]);
    let mut long = vec![0u8; 17];
    assert_eq!(decrypt_one_block_fhe(&mut long, &key, &pos_vals, &e, &c), Err(BlockError::StateLength));
}

#[test]
fn encrypt_one_block_known_answer() {
    let e = ClearEngine;
    let c = Circuits::new();
    let pos_vals = PosVals::new(&e);
    let key = KEY_000102_ENC.to_vec();
    let mut state = vec![
        0x00, 0x11, 0x22, 0x33, 0x44, 0x55, 0x66, 0x77, 0x88, 0x99, 0xaa, 0xbb, 0xcc, 0xdd, 0xee, 0xff,
    ];
    assert_eq!(encrypt_one_block_fhe(&mut state, &key, &pos_vals, &e, &c), Ok(()));
    assert_eq!(state, vec![
        0x69, 0xc4, 0xe0, 0xd8, 0x6a, 0x7b, 0x04, 0x30, 0xd8, 0xcd, 0xb7, 0x80, 0x70, 0xb4, 0xc5, 0x5a,
    ]);
    assert_eq!(decrypt_one_block_fhe(&mut state, &key, &pos_vals, &e, &c), Ok(()));
    assert_eq!(state, vec![
        0x00, 0x11, 0x22, 0x33, 0x44, 0x55, 0x66, 0x77, 0x88, 0x99, 0xaa, 0xbb, 0xcc, 0xdd, 0xee, 0xff,
    ]);
}

#[test]
fn encrypt_block_zero_iterations_copies() {
    let input = [7u8; 16];
    let mut out = [0u8; 16];
    encrypt_block_fhe(&input, &KEY_000102_ENC, &mut out, 0);
    assert_eq!(out, input);
}

#[test]
fn encrypt_block_twice_then_decrypt_twice() {
    let input = [0x42u8; 16];
    let mut twice = [0u8; 16];
    encrypt_block_fhe(&input, &KEY_000102_ENC, &mut twice, 2);
    let mut once = [0u8; 16];
    encrypt_block_fhe(&input, &KEY_000102_ENC, &mut once, 1);
    let mut again = [0u8; 16];
    encrypt_block_fhe(&once, &KEY_000102_ENC, &mut again, 1);
    assert_eq!(twice, again);
    let mut back = [0u8; 16];
    decrypt_block_fhe(&twice, &KEY_000102_ENC, &mut back, 2);
    assert_eq!(back, input);
}

#[test]
fn program_check_accepts_builtin_circuits() {
    let c = Circuits::new();
    assert_eq!(c.sbox.check(), Ok(()));
    assert_eq!(c.inv_sbox.check(), Ok(()));
    assert_eq!(c.mix_columns.check(), Ok(()));
    assert_eq!(c.sbox.gates.len(), 119);
    assert_eq!(c.mix_columns.gates.len(), 92);
}

#[test]
fn program_check_finds_dangling_operand() {
    let p = Program {
        n_inputs: 2,
        gates: vec![
            Gate { op: GateOp::Xor, lhs: 0, rhs: 1 },
            Gate { op: GateOp::And, lhs: 2, rhs: 3 },
        ],
        outputs: vec![3],
    };
    assert_eq!(p.check(), Err(ProgramError::DanglingOperand { gate: 1 }));
}

#[test]
fn program_check_finds_missing_output() {
    let p = Program {
        n_inputs: 2,
        gates: vec![Gate { op: GateOp::Not, lhs: 0, rhs: 0 }],
        outputs: vec![2, 3],
    };
    assert_eq!(p.check(), Err(ProgramError::MissingOutput { index: 1 }));
}

#[test]
fn program_check_finds_too_many_wires() {
    let p = Program {
        n_inputs: usize::MAX,
        gates: vec![Gate { op: GateOp::Not, lhs: 0, rhs: 0 }],
        outputs: vec![],
    };
    assert_eq!(p.check(), Err(ProgramError::TooManyWires));
}

#[test]
fn pool_size_does_not_change_circuit_outputs() {
    let e = ClearEngine;
    let c = Circuits::new();
    let pos_vals = PosVals::new(&e);
    for program in [&c.sbox, &c.inv_sbox] {
        for v in 0..256usize {
            let bits = decompose(&e, &pos_vals, &(v as u8));
            let sequential = execute(&e, program, bits.clone());
            for workers in [1usize, 2, 8] {
                let pooled = execute_pooled(&e, program, bits.clone(), workers);
                assert_eq!(pooled, sequential, "value {} with {} workers", v, workers);
            }
        }
    }
    let col = [0xd4u8, 0xbf, 0x5d, 0x30];
    let mut bits = Vec::new();
    for b in col {
        bits.extend(decompose(&e, &pos_vals, &b));
    }
    let sequential = execute(&e, &c.mix_columns, bits.clone());
    for workers in [1usize, 2, 8] {
        assert_eq!(execute_pooled(&e, &c.mix_columns, bits.clone(), workers), sequential);
    }
}

#[test]
fn evaluate_reads_the_outputs() {
    let e = ClearEngine;
    let p = Program {
        n_inputs: 2,
        gates: vec![
            Gate { op: GateOp::Xor, lhs: 0, rhs: 1 },
            Gate { op: GateOp::And, lhs: 0, rhs: 1 },
            Gate { op: GateOp::Not, lhs: 2, rhs: 2 },
        ],
        outputs: vec![4, 3, 2],
    };
    assert_eq!(p.check(), Ok(()));
    assert_eq!(evaluate(&e, &p, vec![true, false]), vec![false, false, true]);
    assert_eq!(evaluate(&e, &p, vec![true, true]), vec![true, true, false]);
}

#[test]
fn pos_vals_from_parts_keeps_the_constants() {
    let e = ClearEngine;
    let pos_vals = PosVals::from_parts(&e, vec![1u8, 2, 4, 8, 16, 32, 64, 128], 0u8);
    assert_eq!(pos_vals.get_p_b(), &vec![1u8, 2, 4, 8, 16, 32, 64, 128]);
    assert_eq!(*pos_vals.get_v_0(), 0u8);
    assert_eq!(recompose(&e, &pos_vals, &decompose(&e, &pos_vals, &0xa5u8)), 0xa5u8);
}
