use vstd::prelude::*;

verus! {

/// The AES S-box.
pub open spec fn sbox_table(x: u8) -> u8 {
    match x {
        0x00 => 0x63,
        0x01 => 0x7c,
        0x02 => 0x77,
        0x03 => 0x7b,
        0x04 => 0xf2,
        0x05 => 0x6b,
        0x06 => 0x6f,
        0x07 => 0xc5,
        0x08 => 0x30,
        0x09 => 0x01,
        0x0a => 0x67,
        0x0b => 0x2b,
        0x0c => 0xfe,
        0x0d => 0xd7,
        0x0e => 0xab,
        0x0f => 0x76,
        0x10 => 0xca,
        0x11 => 0x82,
        0x12 => 0xc9,
        0x13 => 0x7d,
        0x14 => 0xfa,
        0x15 => 0x59,
        0x16 => 0x47,
        0x17 => 0xf0,
        0x18 => 0xad,
        0x19 => 0xd4,
        0x1a => 0xa2,
        0x1b => 0xaf,
        0x1c => 0x9c,
        0x1d => 0xa4,
        0x1e => 0x72,
        0x1f => 0xc0,
        0x20 => 0xb7,
        0x21 => 0xfd,
        0x22 => 0x93,
        0x23 => 0x26,
        0x24 => 0x36,
        0x25 => 0x3f,
        0x26 => 0xf7,
        0x27 => 0xcc,
        0x28 => 0x34,
        0x29 => 0xa5,
        0x2a => 0xe5,
        0x2b => 0xf1,
        0x2c => 0x71,
        0x2d => 0xd8,
        0x2e => 0x31,
        0x2f => 0x15,
        0x30 => 0x04,
        0x31 => 0xc7,
        0x32 => 0x23,
        0x33 => 0xc3,
        0x34 => 0x18,
        0x35 => 0x96,
        0x36 => 0x05,
        0x37 => 0x9a,
        0x38 => 0x07,
        0x39 => 0x12,
        0x3a => 0x80,
        0x3b => 0xe2,
        0x3c => 0xeb,
        0x3d => 0x27,
        0x3e => 0xb2,
        0x3f => 0x75,
        0x40 => 0x09,
        0x41 => 0x83,
        0x42 => 0x2c,
        0x43 => 0x1a,
        0x44 => 0x1b,
        0x45 => 0x6e,
        0x46 => 0x5a,
        0x47 => 0xa0,
        0x48 => 0x52,
        0x49 => 0x3b,
        0x4a => 0xd6,
        0x4b => 0xb3,
        0x4c => 0x29,
        0x4d => 0xe3,
        0x4e => 0x2f,
        0x4f => 0x84,
        0x50 => 0x53,
        0x51 => 0xd1,
        0x52 => 0x00,
        0x53 => 0xed,
        0x54 => 0x20,
        0x55 => 0xfc,
        0x56 => 0xb1,
        0x57 => 0x5b,
        0x58 => 0x6a,
        0x59 => 0xcb,
        0x5a => 0xbe,
        0x5b => 0x39,
        0x5c => 0x4a,
        0x5d => 0x4c,
        0x5e => 0x58,
        0x5f => 0xcf,
        0x60 => 0xd0,
        0x61 => 0xef,
        0x62 => 0xaa,
        0x63 => 0xfb,
        0x64 => 0x43,
        0x65 => 0x4d,
        0x66 => 0x33,
        0x67 => 0x85,
        0x68 => 0x45,
        0x69 => 0xf9,
        0x6a => 0x02,
        0x6b => 0x7f,
        0x6c => 0x50,
        0x6d => 0x3c,
        0x6e => 0x9f,
        0x6f => 0xa8,
        0x70 => 0x51,
        0x71 => 0xa3,
        0x72 => 0x40,
        0x73 => 0x8f,
        0x74 => 0x92,
        0x75 => 0x9d,
        0x76 => 0x38,
        0x77 => 0xf5,
        0x78 => 0xbc,
        0x79 => 0xb6,
        0x7a => 0xda,
        0x7b => 0x21,
        0x7c => 0x10,
        0x7d => 0xff,
        0x7e => 0xf3,
        0x7f => 0xd2,
        0x80 => 0xcd,
        0x81 => 0x0c,
        0x82 => 0x13,
        0x83 => 0xec,
        0x84 => 0x5f,
        0x85 => 0x97,
        0x86 => 0x44,
        0x87 => 0x17,
        0x88 => 0xc4,
        0x89 => 0xa7,
        0x8a => 0x7e,
        0x8b => 0x3d,
        0x8c => 0x64,
        0x8d => 0x5d,
        0x8e => 0x19,
        0x8f => 0x73,
        0x90 => 0x60,
        0x91 => 0x81,
        0x92 => 0x4f,
        0x93 => 0xdc,
        0x94 => 0x22,
        0x95 => 0x2a,
        0x96 => 0x90,
        0x97 => 0x88,
        0x98 => 0x46,
        0x99 => 0xee,
        0x9a => 0xb8,
        0x9b => 0x14,
        0x9c => 0xde,
        0x9d => 0x5e,
        0x9e => 0x0b,
        0x9f => 0xdb,
        0xa0 => 0xe0,
        0xa1 => 0x32,
        0xa2 => 0x3a,
        0xa3 => 0x0a,
        0xa4 => 0x49,
        0xa5 => 0x06,
        0xa6 => 0x24,
        0xa7 => 0x5c,
        0xa8 => 0xc2,
        0xa9 => 0xd3,
        0xaa => 0xac,
        0xab => 0x62,
        0xac => 0x91,
        0xad => 0x95,
        0xae => 0xe4,
        0xaf => 0x79,
        0xb0 => 0xe7,
        0xb1 => 0xc8,
        0xb2 => 0x37,
        0xb3 => 0x6d,
        0xb4 => 0x8d,
        0xb5 => 0xd5,
        0xb6 => 0x4e,
        0xb7 => 0xa9,
        0xb8 => 0x6c,
        0xb9 => 0x56,
        0xba => 0xf4,
        0xbb => 0xea,
        0xbc => 0x65,
        0xbd => 0x7a,
        0xbe => 0xae,
        0xbf => 0x08,
        0xc0 => 0xba,
        0xc1 => 0x78,
        0xc2 => 0x25,
        0xc3 => 0x2e,
        0xc4 => 0x1c,
        0xc5 => 0xa6,
        0xc6 => 0xb4,
        0xc7 => 0xc6,
        0xc8 => 0xe8,
        0xc9 => 0xdd,
        0xca => 0x74,
        0xcb => 0x1f,
        0xcc => 0x4b,
        0xcd => 0xbd,
        0xce => 0x8b,
        0xcf => 0x8a,
        0xd0 => 0x70,
        0xd1 => 0x3e,
        0xd2 => 0xb5,
        0xd3 => 0x66,
        0xd4 => 0x48,
        0xd5 => 0x03,
        0xd6 => 0xf6,
        0xd7 => 0x0e,
        0xd8 => 0x61,
        0xd9 => 0x35,
        0xda => 0x57,
        0xdb => 0xb9,
        0xdc => 0x86,
        0xdd => 0xc1,
        0xde => 0x1d,
        0xdf => 0x9e,
        0xe0 => 0xe1,
        0xe1 => 0xf8,
        0xe2 => 0x98,
        0xe3 => 0x11,
        0xe4 => 0x69,
        0xe5 => 0xd9,
        0xe6 => 0x8e,
        0xe7 => 0x94,
        0xe8 => 0x9b,
        0xe9 => 0x1e,
        0xea => 0x87,
        0xeb => 0xe9,
        0xec => 0xce,
        0xed => 0x55,
        0xee => 0x28,
        0xef => 0xdf,
        0xf0 => 0x8c,
        0xf1 => 0xa1,
        0xf2 => 0x89,
        0xf3 => 0x0d,
        0xf4 => 0xbf,
        0xf5 => 0xe6,
        0xf6 => 0x42,
        0xf7 => 0x68,
        0xf8 => 0x41,
        0xf9 => 0x99,
        0xfa => 0x2d,
        0xfb => 0x0f,
        0xfc => 0xb0,
        0xfd => 0x54,
        0xfe => 0xbb,
        _ => 0x16,
    }
}
/// The inverse of the AES S-box.
pub open spec fn inv_sbox_table(x: u8) -> u8 {
    match x {
        0x00 => 0x52,
        0x01 => 0x09,
        0x02 => 0x6a,
        0x03 => 0xd5,
        0x04 => 0x30,
        0x05 => 0x36,
        0x06 => 0xa5,
        0x07 => 0x38,
        0x08 => 0xbf,
        0x09 => 0x40,
        0x0a => 0xa3,
        0x0b => 0x9e,
        0x0c => 0x81,
        0x0d => 0xf3,
        0x0e => 0xd7,
        0x0f => 0xfb,
        0x10 => 0x7c,
        0x11 => 0xe3,
        0x12 => 0x39,
        0x13 => 0x82,
        0x14 => 0x9b,
        0x15 => 0x2f,
        0x16 => 0xff,
        0x17 => 0x87,
        0x18 => 0x34,
        0x19 => 0x8e,
        0x1a => 0x43,
        0x1b => 0x44,
        0x1c => 0xc4,
        0x1d => 0xde,
        0x1e => 0xe9,
        0x1f => 0xcb,
        0x20 => 0x54,
        0x21 => 0x7b,
        0x22 => 0x94,
        0x23 => 0x32,
        0x24 => 0xa6,
        0x25 => 0xc2,
        0x26 => 0x23,
        0x27 => 0x3d,
        0x28 => 0xee,
        0x29 => 0x4c,
        0x2a => 0x95,
        0x2b => 0x0b,
        0x2c => 0x42,
        0x2d => 0xfa,
        0x2e => 0xc3,
        0x2f => 0x4e,
        0x30 => 0x08,
        0x31 => 0x2e,
        0x32 => 0xa1,
        0x33 => 0x66,
        0x34 => 0x28,
        0x35 => 0xd9,
        0x36 => 0x24,
        0x37 => 0xb2,
        0x38 => 0x76,
        0x39 => 0x5b,
        0x3a => 0xa2,
        0x3b => 0x49,
        0x3c => 0x6d,
        0x3d => 0x8b,
        0x3e => 0xd1,
        0x3f => 0x25,
        0x40 => 0x72,
        0x41 => 0xf8,
        0x42 => 0xf6,
        0x43 => 0x64,
        0x44 => 0x86,
        0x45 => 0x68,
        0x46 => 0x98,
        0x47 => 0x16,
        0x48 => 0xd4,
        0x49 => 0xa4,
        0x4a => 0x5c,
        0x4b => 0xcc,
        0x4c => 0x5d,
        0x4d => 0x65,
        0x4e => 0xb6,
        0x4f => 0x92,
        0x50 => 0x6c,
        0x51 => 0x70,
        0x52 => 0x48,
        0x53 => 0x50,
        0x54 => 0xfd,
        0x55 => 0xed,
        0x56 => 0xb9,
        0x57 => 0xda,
        0x58 => 0x5e,
        0x59 => 0x15,
        0x5a => 0x46,
        0x5b => 0x57,
        0x5c => 0xa7,
        0x5d => 0x8d,
        0x5e => 0x9d,
        0x5f => 0x84,
        0x60 => 0x90,
        0x61 => 0xd8,
        0x62 => 0xab,
        0x63 => 0x00,
        0x64 => 0x8c,
        0x65 => 0xbc,
        0x66 => 0xd3,
        0x67 => 0x0a,
        0x68 => 0xf7,
        0x69 => 0xe4,
        0x6a => 0x58,
        0x6b => 0x05,
        0x6c => 0xb8,
        0x6d => 0xb3,
        0x6e => 0x45,
        0x6f => 0x06,
        0x70 => 0xd0,
        0x71 => 0x2c,
        0x72 => 0x1e,
        0x73 => 0x8f,
        0x74 => 0xca,
        0x75 => 0x3f,
        0x76 => 0x0f,
        0x77 => 0x02,
        0x78 => 0xc1,
        0x79 => 0xaf,
        0x7a => 0xbd,
        0x7b => 0x03,
        0x7c => 0x01,
        0x7d => 0x13,
        0x7e => 0x8a,
        0x7f => 0x6b,
        0x80 => 0x3a,
        0x81 => 0x91,
        0x82 => 0x11,
        0x83 => 0x41,
        0x84 => 0x4f,
        0x85 => 0x67,
        0x86 => 0xdc,
        0x87 => 0xea,
        0x88 => 0x97,
        0x89 => 0xf2,
        0x8a => 0xcf,
        0x8b => 0xce,
        0x8c => 0xf0,
        0x8d => 0xb4,
        0x8e => 0xe6,
        0x8f => 0x73,
        0x90 => 0x96,
        0x91 => 0xac,
        0x92 => 0x74,
        0x93 => 0x22,
        0x94 => 0xe7,
        0x95 => 0xad,
        0x96 => 0x35,
        0x97 => 0x85,
        0x98 => 0xe2,
        0x99 => 0xf9,
        0x9a => 0x37,
        0x9b => 0xe8,
        0x9c => 0x1c,
        0x9d => 0x75,
        0x9e => 0xdf,
        0x9f => 0x6e,
        0xa0 => 0x47,
        0xa1 => 0xf1,
        0xa2 => 0x1a,
        0xa3 => 0x71,
        0xa4 => 0x1d,
        0xa5 => 0x29,
        0xa6 => 0xc5,
        0xa7 => 0x89,
        0xa8 => 0x6f,
        0xa9 => 0xb7,
        0xaa => 0x62,
        0xab => 0x0e,
        0xac => 0xaa,
        0xad => 0x18,
        0xae => 0xbe,
        0xaf => 0x1b,
        0xb0 => 0xfc,
        0xb1 => 0x56,
        0xb2 => 0x3e,
        0xb3 => 0x4b,
        0xb4 => 0xc6,
        0xb5 => 0xd2,
        0xb6 => 0x79,
        0xb7 => 0x20,
        0xb8 => 0x9a,
        0xb9 => 0xdb,
        0xba => 0xc0,
        0xbb => 0xfe,
        0xbc => 0x78,
        0xbd => 0xcd,
        0xbe => 0x5a,
        0xbf => 0xf4,
        0xc0 => 0x1f,
        0xc1 => 0xdd,
        0xc2 => 0xa8,
        0xc3 => 0x33,
        0xc4 => 0x88,
        0xc5 => 0x07,
        0xc6 => 0xc7,
        0xc7 => 0x31,
        0xc8 => 0xb1,
        0xc9 => 0x12,
        0xca => 0x10,
        0xcb => 0x59,
        0xcc => 0x27,
        0xcd => 0x80,
        0xce => 0xec,
        0xcf => 0x5f,
        0xd0 => 0x60,
        0xd1 => 0x51,
        0xd2 => 0x7f,
        0xd3 => 0xa9,
        0xd4 => 0x19,
        0xd5 => 0xb5,
        0xd6 => 0x4a,
        0xd7 => 0x0d,
        0xd8 => 0x2d,
        0xd9 => 0xe5,
        0xda => 0x7a,
        0xdb => 0x9f,
        0xdc => 0x93,
        0xdd => 0xc9,
        0xde => 0x9c,
        0xdf => 0xef,
        0xe0 => 0xa0,
        0xe1 => 0xe0,
        0xe2 => 0x3b,
        0xe3 => 0x4d,
        0xe4 => 0xae,
        0xe5 => 0x2a,
        0xe6 => 0xf5,
        0xe7 => 0xb0,
        0xe8 => 0xc8,
        0xe9 => 0xeb,
        0xea => 0xbb,
        0xeb => 0x3c,
        0xec => 0x83,
        0xed => 0x53,
        0xee => 0x99,
        0xef => 0x61,
        0xf0 => 0x17,
        0xf1 => 0x2b,
        0xf2 => 0x04,
        0xf3 => 0x7e,
        0xf4 => 0xba,
        0xf5 => 0x77,
        0xf6 => 0xd6,
        0xf7 => 0x26,
        0xf8 => 0xe1,
        0xf9 => 0x69,
        0xfa => 0x14,
        0xfb => 0x63,
        0xfc => 0x55,
        0xfd => 0x21,
        0xfe => 0x0c,
        _ => 0x7d,
    }
}
/// Multiplication by `x` in GF(2^8) modulo `x^8 + x^4 + x^3 + x + 1`.
pub open spec fn xtime(x: u8) -> u8 {
    (x << 1u8) ^ (((x >> 7u8) * 0x1bu8) as u8)
}

pub open spec fn mul2(x: u8) -> u8 {
    xtime(x)
}

pub open spec fn mul3(x: u8) -> u8 {
    xtime(x) ^ x
}

pub open spec fn mul9(x: u8) -> u8 {
    xtime(xtime(xtime(x))) ^ x
}

pub open spec fn mul11(x: u8) -> u8 {
    xtime(xtime(xtime(x))) ^ xtime(x) ^ x
}

pub open spec fn mul13(x: u8) -> u8 {
    xtime(xtime(xtime(x))) ^ xtime(xtime(x)) ^ x
}

pub open spec fn mul14(x: u8) -> u8 {
    xtime(xtime(xtime(x))) ^ xtime(xtime(x)) ^ xtime(x)
}

/// One byte of MixColumns: row `[2, 3, 1, 1]` applied to `a0 .. a3`.
#[verifier::opaque]
pub open spec fn mix_byte(a0: u8, a1: u8, a2: u8, a3: u8) -> u8 {
    mul2(a0) ^ mul3(a1) ^ a2 ^ a3
}

/// One byte of InvMixColumns: row `[14, 11, 13, 9]` applied to `a0 .. a3`.
#[verifier::opaque]
pub open spec fn inv_mix_byte(a0: u8, a1: u8, a2: u8, a3: u8) -> u8 {
    mul14(a0) ^ mul11(a1) ^ mul13(a2) ^ mul9(a3)
}

/// The byte `off` places further down the column of byte `i` of a state,
/// wrapping around within the column.
pub open spec fn col_at(s: Seq<u8>, i: int, off: int) -> u8 {
    s[4 * (i / 4) + (i % 4 + off) % 4]
}

pub open spec fn sub_bytes(s: Seq<u8>) -> Seq<u8> {
    Seq::new(16, |i: int| sbox_table(s[i]))
}

pub open spec fn inv_sub_bytes(s: Seq<u8>) -> Seq<u8> {
    Seq::new(16, |i: int| inv_sbox_table(s[i]))
}

/// Where byte `i` of a state comes from under ShiftRows: row `i % 4` turns
/// left by its row number.
pub open spec fn shift_rows_src(i: int) -> int {
    (i + 4 * (i % 4)) % 16
}

/// Where byte `i` of a state comes from under InvShiftRows.
pub open spec fn inv_shift_rows_src(i: int) -> int {
    (i + 16 - 4 * (i % 4)) % 16
}

pub open spec fn shift_rows(s: Seq<u8>) -> Seq<u8> {
    Seq::new(16, |i: int| s[shift_rows_src(i)])
}

pub open spec fn inv_shift_rows(s: Seq<u8>) -> Seq<u8> {
    Seq::new(16, |i: int| s[inv_shift_rows_src(i)])
}

pub open spec fn mix_columns(s: Seq<u8>) -> Seq<u8> {
    Seq::new(16, |i: int| mix_byte(col_at(s, i, 0), col_at(s, i, 1), col_at(s, i, 2), col_at(s, i, 3)))
}

pub open spec fn inv_mix_columns(s: Seq<u8>) -> Seq<u8> {
    Seq::new(
        16,
        |i: int| inv_mix_byte(col_at(s, i, 0), col_at(s, i, 1), col_at(s, i, 2), col_at(s, i, 3)),
    )
}

/// XOR with round key `r`, the bytes `16 * r .. 16 * r + 16` of the expanded key.
pub open spec fn add_round_key(s: Seq<u8>, k: Seq<u8>, r: int) -> Seq<u8> {
    Seq::new(16, |i: int| s[i] ^ k[16 * r + i])
}

pub open spec fn enc_round(s: Seq<u8>, k: Seq<u8>, r: int) -> Seq<u8> {
    add_round_key(mix_columns(shift_rows(sub_bytes(s))), k, r)
}

/// The state after the full rounds `1 ..= n` of encryption.
pub open spec fn enc_rounds(s: Seq<u8>, k: Seq<u8>, n: int) -> Seq<u8>
    decreases n,
{
    if n <= 0 {
        s
    } else {
        enc_round(enc_rounds(s, k, n - 1), k, n)
    }
}

/// AES-128 encryption of the block `p` under the expanded key `k`.
pub open spec fn aes_encrypt(p: Seq<u8>, k: Seq<u8>) -> Seq<u8> {
    add_round_key(shift_rows(sub_bytes(enc_rounds(add_round_key(p, k, 0), k, 9))), k, 10)
}

pub open spec fn dec_round(s: Seq<u8>, k: Seq<u8>, r: int) -> Seq<u8> {
    inv_mix_columns(add_round_key(inv_sub_bytes(inv_shift_rows(s)), k, r))
}

/// The state after the full inverse rounds `n` down to `1` of decryption.
pub open spec fn dec_rounds(s: Seq<u8>, k: Seq<u8>, n: int) -> Seq<u8>
    decreases n,
{
    if n <= 0 {
        s
    } else {
        dec_rounds(dec_round(s, k, n), k, n - 1)
    }
}

/// AES-128 decryption of the block `c` under the expanded key `k`.
pub open spec fn aes_decrypt(c: Seq<u8>, k: Seq<u8>) -> Seq<u8> {
    add_round_key(inv_sub_bytes(inv_shift_rows(dec_rounds(add_round_key(c, k, 10), k, 9))), k, 0)
}

proof fn lemma_xor_twice()
    ensures
        forall|x: u8, y: u8| #[trigger] ((x ^ y) ^ y) == x,
{
    assert(forall|x: u8, y: u8| #[trigger] ((x ^ y) ^ y) == x) by (bit_vector);
}

/// Adding the same round key twice gives the state back.
pub proof fn lemma_add_round_key_twice(s: Seq<u8>, k: Seq<u8>, r: int)
    requires
        s.len() == 16,
        0 <= r,
        16 * r + 16 <= k.len(),
    ensures
        add_round_key(add_round_key(s, k, r), k, r) == s,
{
    lemma_xor_twice();
    assert(add_round_key(add_round_key(s, k, r), k, r) =~= s);
}

/// InvShiftRows undoes ShiftRows.
pub proof fn lemma_inv_shift_rows(s: Seq<u8>)
    requires
        s.len() == 16,
    ensures
        inv_shift_rows(shift_rows(s)) == s,
{
    let t = inv_shift_rows(shift_rows(s));
    assert forall|i: int| 0 <= i < 16 implies #[trigger] t[i] == s[i] by {
        assert(i == 0 || i == 1 || i == 2 || i == 3 || i == 4 || i == 5 || i == 6 || i == 7 || i == 8 || i == 9 || i == 10 || i == 11 || i == 12 || i == 13 || i == 14 || i == 15);
    }
    assert(t =~= s);
}

/// InvSubBytes undoes SubBytes.
pub proof fn lemma_inv_sub_bytes(s: Seq<u8>)
    requires
        s.len() == 16,
    ensures
        inv_sub_bytes(sub_bytes(s)) == s,
{
    assert(forall|x: u8| x >> 7u8 == 0u8 ==> #[trigger] inv_sbox_table(sbox_table(x)) == x)
        by (bit_vector);
    assert(forall|x: u8| x >> 7u8 == 1u8 ==> #[trigger] inv_sbox_table(sbox_table(x)) == x)
        by (bit_vector);
    assert(forall|x: u8| #[trigger] (x >> 7u8) < 2u8) by (bit_vector);
    assert forall|x: u8| #[trigger] inv_sbox_table(sbox_table(x)) == x by {
        assert((x >> 7u8) < 2u8);
    }
    assert(inv_sub_bytes(sub_bytes(s)) =~= s);
}

proof fn lemma_mul_linear()
    ensures
        forall|x: u8, y: u8| #[trigger] mul9(x ^ y) == mul9(x) ^ mul9(y),
        forall|x: u8, y: u8| #[trigger] mul11(x ^ y) == mul11(x) ^ mul11(y),
        forall|x: u8, y: u8| #[trigger] mul13(x ^ y) == mul13(x) ^ mul13(y),
        forall|x: u8, y: u8| #[trigger] mul14(x ^ y) == mul14(x) ^ mul14(y),
{
    assert(forall|x: u8, y: u8| #[trigger] mul9(x ^ y) == mul9(x) ^ mul9(y)) by (bit_vector);
    assert(forall|x: u8, y: u8| #[trigger] mul11(x ^ y) == mul11(x) ^ mul11(y)) by (bit_vector);
    assert(forall|x: u8, y: u8| #[trigger] mul13(x ^ y) == mul13(x) ^ mul13(y)) by (bit_vector);
    assert(forall|x: u8, y: u8| #[trigger] mul14(x ^ y) == mul14(x) ^ mul14(y)) by (bit_vector);
}

/// The product of the InvMixColumns row `[14, 11, 13, 9]` with the columns of
/// the MixColumns matrix is the first unit row.
proof fn lemma_inv_mix_coefficients(x: u8)
    ensures
        mul14(mul2(x)) ^ mul11(x) ^ mul13(x) ^ mul9(mul3(x)) == x,
        mul14(mul3(x)) ^ mul11(mul2(x)) ^ mul13(x) ^ mul9(x) == 0,
        mul14(x) ^ mul11(mul3(x)) ^ mul13(mul2(x)) ^ mul9(x) == 0,
        mul14(x) ^ mul11(x) ^ mul13(mul3(x)) ^ mul9(mul2(x)) == 0,
{
    assert(mul14(mul2(x)) ^ mul11(x) ^ mul13(x) ^ mul9(mul3(x)) == x) by (bit_vector);
    assert(mul14(mul3(x)) ^ mul11(mul2(x)) ^ mul13(x) ^ mul9(x) == 0) by (bit_vector);
    assert(mul14(x) ^ mul11(mul3(x)) ^ mul13(mul2(x)) ^ mul9(x) == 0) by (bit_vector);
    assert(mul14(x) ^ mul11(x) ^ mul13(mul3(x)) ^ mul9(mul2(x)) == 0) by (bit_vector);
}

/// InvMixColumns gives back the first byte of a column that MixColumns mixed.
proof fn lemma_inv_mix_first(a: u8, b: u8, c: u8, d: u8)
    ensures
        inv_mix_byte(mix_byte(a, b, c, d), mix_byte(b, c, d, a), mix_byte(c, d, a, b), mix_byte(d, a, b, c)) == a,
{
    reveal(mix_byte);
    reveal(inv_mix_byte);
    lemma_mul_linear();
    lemma_inv_mix_coefficients(a);
    lemma_inv_mix_coefficients(b);
    lemma_inv_mix_coefficients(c);
    lemma_inv_mix_coefficients(d);
    let (a1, b1, c1, d1) = (mul14(mul2(a)), mul14(mul3(b)), mul14(c), mul14(d));
    let (a2, b2, c2, d2) = (mul11(a), mul11(mul2(b)), mul11(mul3(c)), mul11(d));
    let (a3, b3, c3, d3) = (mul13(a), mul13(b), mul13(mul2(c)), mul13(mul3(d)));
    let (a4, b4, c4, d4) = (mul9(mul3(a)), mul9(b), mul9(c), mul9(mul2(d)));
    assert(mul14(mul2(a) ^ mul3(b)) == a1 ^ b1);
    assert(mul14(mul2(a) ^ mul3(b) ^ c) == a1 ^ b1 ^ c1);
    assert(mul14(mix_byte(a, b, c, d)) == a1 ^ b1 ^ c1 ^ d1);
    assert(mul11(mul2(b) ^ mul3(c)) == b2 ^ c2);
    assert(mul11(mul2(b) ^ mul3(c) ^ d) == b2 ^ c2 ^ d2);
    assert(mul11(mix_byte(b, c, d, a)) == b2 ^ c2 ^ d2 ^ a2);
    assert(mul13(mul2(c) ^ mul3(d)) == c3 ^ d3);
    assert(mul13(mul2(c) ^ mul3(d) ^ a) == c3 ^ d3 ^ a3);
    assert(mul13(mix_byte(c, d, a, b)) == c3 ^ d3 ^ a3 ^ b3);
    assert(mul9(mul2(d) ^ mul3(a)) == d4 ^ a4);
    assert(mul9(mul2(d) ^ mul3(a) ^ b) == d4 ^ a4 ^ b4);
    assert(mul9(mix_byte(d, a, b, c)) == d4 ^ a4 ^ b4 ^ c4);
    assert((a1 ^ b1 ^ c1 ^ d1) ^ (b2 ^ c2 ^ d2 ^ a2) ^ (c3 ^ d3 ^ a3 ^ b3) ^ (d4 ^ a4 ^ b4 ^ c4) == a)
        by (bit_vector)
        requires
            a1 ^ a2 ^ a3 ^ a4 == a,
            b1 ^ b2 ^ b3 ^ b4 == 0,
            c1 ^ c2 ^ c3 ^ c4 == 0,
            d1 ^ d2 ^ d3 ^ d4 == 0,
    ;
}

/// InvMixColumns undoes MixColumns on one column.
pub proof fn lemma_inv_mix_column(a: u8, b: u8, c: u8, d: u8)
    ensures
        inv_mix_byte(mix_byte(a, b, c, d), mix_byte(b, c, d, a), mix_byte(c, d, a, b), mix_byte(d, a, b, c)) == a,
        inv_mix_byte(mix_byte(b, c, d, a), mix_byte(c, d, a, b), mix_byte(d, a, b, c), mix_byte(a, b, c, d)) == b,
        inv_mix_byte(mix_byte(c, d, a, b), mix_byte(d, a, b, c), mix_byte(a, b, c, d), mix_byte(b, c, d, a)) == c,
        inv_mix_byte(mix_byte(d, a, b, c), mix_byte(a, b, c, d), mix_byte(b, c, d, a), mix_byte(c, d, a, b)) == d,
{
    lemma_inv_mix_first(a, b, c, d);
    lemma_inv_mix_first(b, c, d, a);
    lemma_inv_mix_first(c, d, a, b);
    lemma_inv_mix_first(d, a, b, c);
}

/// InvMixColumns undoes MixColumns.
pub proof fn lemma_inv_mix_columns(s: Seq<u8>)
    requires
        s.len() == 16,
    ensures
        inv_mix_columns(mix_columns(s)) == s,
{
    lemma_inv_mix_column(s[0], s[1], s[2], s[3]);
    lemma_inv_mix_column(s[4], s[5], s[6], s[7]);
    lemma_inv_mix_column(s[8], s[9], s[10], s[11]);
    lemma_inv_mix_column(s[12], s[13], s[14], s[15]);
    let m = mix_columns(s);
    let t = inv_mix_columns(m);
    assert(m[0] == mix_byte(s[0], s[1], s[2], s[3]));
    assert(m[1] == mix_byte(s[1], s[2], s[3], s[0]));
    assert(m[2] == mix_byte(s[2], s[3], s[0], s[1]));
    assert(m[3] == mix_byte(s[3], s[0], s[1], s[2]));
    assert(m[4] == mix_byte(s[4], s[5], s[6], s[7]));
    assert(m[5] == mix_byte(s[5], s[6], s[7], s[4]));
    assert(m[6] == mix_byte(s[6], s[7], s[4], s[5]));
    assert(m[7] == mix_byte(s[7], s[4], s[5], s[6]));
    assert(m[8] == mix_byte(s[8], s[9], s[10], s[11]));
    assert(m[9] == mix_byte(s[9], s[10], s[11], s[8]));
    assert(m[10] == mix_byte(s[10], s[11], s[8], s[9]));
    assert(m[11] == mix_byte(s[11], s[8], s[9], s[10]));
    assert(m[12] == mix_byte(s[12], s[13], s[14], s[15]));
    assert(m[13] == mix_byte(s[13], s[14], s[15], s[12]));
    assert(m[14] == mix_byte(s[14], s[15], s[12], s[13]));
    assert(m[15] == mix_byte(s[15], s[12], s[13], s[14]));
    assert(t[0] == inv_mix_byte(m[0], m[1], m[2], m[3]));
    assert(t[0] == s[0]);
    assert(t[1] == inv_mix_byte(m[1], m[2], m[3], m[0]));
    assert(t[1] == s[1]);
    assert(t[2] == inv_mix_byte(m[2], m[3], m[0], m[1]));
    assert(t[2] == s[2]);
    assert(t[3] == inv_mix_byte(m[3], m[0], m[1], m[2]));
    assert(t[3] == s[3]);
    assert(t[4] == inv_mix_byte(m[4], m[5], m[6], m[7]));
    assert(t[4] == s[4]);
    assert(t[5] == inv_mix_byte(m[5], m[6], m[7], m[4]));
    assert(t[5] == s[5]);
    assert(t[6] == inv_mix_byte(m[6], m[7], m[4], m[5]));
    assert(t[6] == s[6]);
    assert(t[7] == inv_mix_byte(m[7], m[4], m[5], m[6]));
    assert(t[7] == s[7]);
    assert(t[8] == inv_mix_byte(m[8], m[9], m[10], m[11]));
    assert(t[8] == s[8]);
    assert(t[9] == inv_mix_byte(m[9], m[10], m[11], m[8]));
    assert(t[9] == s[9]);
    assert(t[10] == inv_mix_byte(m[10], m[11], m[8], m[9]));
    assert(t[10] == s[10]);
    assert(t[11] == inv_mix_byte(m[11], m[8], m[9], m[10]));
    assert(t[11] == s[11]);
    assert(t[12] == inv_mix_byte(m[12], m[13], m[14], m[15]));
    assert(t[12] == s[12]);
    assert(t[13] == inv_mix_byte(m[13], m[14], m[15], m[12]));
    assert(t[13] == s[13]);
    assert(t[14] == inv_mix_byte(m[14], m[15], m[12], m[13]));
    assert(t[14] == s[14]);
    assert(t[15] == inv_mix_byte(m[15], m[12], m[13], m[14]));
    assert(t[15] == s[15]);
    assert forall|i: int| 0 <= i < 16 implies #[trigger] t[i] == s[i] by {
        assert(i == 0 || i == 1 || i == 2 || i == 3 || i == 4 || i == 5 || i == 6 || i == 7 || i == 8 || i == 9 || i == 10 || i == 11 || i == 12 || i == 13 || i == 14 || i == 15);
    }
    assert(t =~= s);
}

/// Undoing the last three steps of a full round.
proof fn lemma_undo_sub_shift(s: Seq<u8>)
    requires
        s.len() == 16,
    ensures
        inv_sub_bytes(inv_shift_rows(shift_rows(sub_bytes(s)))) == s,
{
    lemma_inv_shift_rows(sub_bytes(s));
    lemma_inv_sub_bytes(s);
}

/// One inverse round undoes one full round.
proof fn lemma_dec_round(s: Seq<u8>, k: Seq<u8>, n: int)
    requires
        s.len() == 16,
        k.len() == 176,
        1 <= n <= 9,
    ensures
        dec_round(shift_rows(sub_bytes(enc_round(s, k, n))), k, n) == shift_rows(sub_bytes(s)),
{
    let e = enc_round(s, k, n);
    let m = mix_columns(shift_rows(sub_bytes(s)));
    lemma_undo_sub_shift(e);
    lemma_add_round_key_twice(m, k, n);
    lemma_inv_mix_columns(shift_rows(sub_bytes(s)));
}

proof fn lemma_enc_rounds_len(s: Seq<u8>, k: Seq<u8>, n: int)
    requires
        s.len() == 16,
    ensures
        enc_rounds(s, k, n).len() == 16,
    decreases n,
{
    if n > 0 {
        lemma_enc_rounds_len(s, k, n - 1);
    }
}

/// The inverse rounds `n` down to `1` undo the full rounds `1 ..= n`.
proof fn lemma_dec_rounds(s: Seq<u8>, k: Seq<u8>, n: int)
    requires
        s.len() == 16,
        k.len() == 176,
        0 <= n <= 9,
    ensures
        dec_rounds(shift_rows(sub_bytes(enc_rounds(s, k, n))), k, n) == shift_rows(sub_bytes(s)),
    decreases n,
{
    if n > 0 {
        lemma_enc_rounds_len(s, k, n - 1);
        lemma_dec_round(enc_rounds(s, k, n - 1), k, n);
        lemma_dec_rounds(s, k, n - 1);
    }
}

/// Decryption undoes encryption: for every 16-byte block and every expanded
/// key, decrypting the encryption of the block gives the block back.
pub proof fn lemma_decrypt_encrypt(p: Seq<u8>, k: Seq<u8>)
    requires
        p.len() == 16,
        k.len() == 176,
    ensures
        aes_decrypt(aes_encrypt(p, k), k) == p,
{
    let e0 = add_round_key(p, k, 0);
    let e9 = enc_rounds(e0, k, 9);
    lemma_enc_rounds_len(e0, k, 9);
    lemma_add_round_key_twice(shift_rows(sub_bytes(e9)), k, 10);
    lemma_dec_rounds(e0, k, 9);
    lemma_undo_sub_shift(e0);
    lemma_add_round_key_twice(p, k, 0);
}

} // verus!
