use vstd::prelude::*;
use crate::aes::{
    add_round_key,
    aes_decrypt,
    aes_encrypt,
    dec_round,
    dec_rounds,
    enc_round,
    enc_rounds,
    inv_mix_byte,
    inv_mix_columns,
    inv_shift_rows,
    inv_shift_rows_src,
    inv_sub_bytes,
    mix_columns,
    mul11,
    mul13,
    mul14,
    mul9,
    shift_rows,
    shift_rows_src,
    sub_bytes,
};
use crate::bytewise::{Circuits, mix_cols, sbox_idx, sbox_inv_idx};
use crate::codec::PosVals;
use crate::engine::{ClearEngine, Engine, byte_values};

verus! {

/// Why a block cannot be processed.
#[derive(Clone, Copy, Debug, PartialEq, Eq, Structural)]
pub enum BlockError {
    /// The state does not hold exactly 16 bytes.
    StateLength,
    /// The expanded key does not hold exactly 176 bytes.
    KeyLength,
}

pub const BLOCKSIZE: usize = 16;

pub const ROUNDKEYSIZE: usize = 176;

pub const ROUNDS: usize = 10;

/// XORs round key `r` into the state.
fn add_round_key_fhe<E: Engine>(state: &mut Vec<E::Byte>, rkey: &Vec<E::Byte>, r: usize, e: &E)
    requires
        old(state)@.len() == 16,
        rkey@.len() == 176,
        r <= 10,
    ensures
        final(state)@.len() == 16,
        e.is_clear() ==> byte_values(e, final(state)@) == add_round_key(
            byte_values(e, old(state)@),
            byte_values(e, rkey@),
            r as int,
        ),
{
    let ghost s0 = byte_values(e, state@);
    let mut i: usize = 0;
    while i < 16
        invariant
            state@.len() == 16,
            rkey@.len() == 176,
            r <= 10,
            i <= 16,
            s0.len() == 16,
            e.is_clear() ==> forall|j: int|
                0 <= j < 16 ==> #[trigger] e.byte_value(&state@[j]) == if j < i {
                    s0[j] ^ e.byte_value(&rkey@[16 * r + j])
                } else {
                    s0[j]
                },
        decreases 16 - i,
    {
        let v = e.byte_xor(&state[i], &rkey[16 * r + i]);
        state.set(i, v);
        i = i + 1;
    }
    proof {
        if e.is_clear() {
            assert(byte_values(e, state@) =~= add_round_key(s0, byte_values(e, rkey@), r as int));
        }
    }
}

/// Replaces every byte of the state by its S-box image.
pub fn sub_bytes_fhe<E: Engine>(state: &mut Vec<E::Byte>, pos_vals: &PosVals<E>, e: &E, c: &Circuits)
    requires
        old(state)@.len() == 16,
        pos_vals.wf(e),
        c.wf(),
    ensures
        final(state)@.len() == 16,
        e.is_clear() ==> byte_values(e, final(state)@) == sub_bytes(byte_values(e, old(state)@)),
{
    let ghost s0 = byte_values(e, state@);
    let mut i: usize = 0;
    while i < 16
        invariant
            state@.len() == 16,
            pos_vals.wf(e),
            c.wf(),
            i <= 16,
            s0.len() == 16,
            e.is_clear() ==> forall|j: int|
                0 <= j < 16 ==> #[trigger] e.byte_value(&state@[j]) == if j < i {
                    sub_bytes(s0)[j]
                } else {
                    s0[j]
                },
        decreases 16 - i,
    {
        let v = sbox_idx(&state[i], pos_vals, e, c);
        state.set(i, v);
        i = i + 1;
    }
    proof {
        if e.is_clear() {
            assert(byte_values(e, state@) =~= sub_bytes(s0));
        }
    }
}

/// Replaces every byte of the state by its inverse S-box image.
pub fn inv_sub_bytes_fhe<E: Engine>(state: &mut Vec<E::Byte>, pos_vals: &PosVals<E>, e: &E, c: &Circuits)
    requires
        old(state)@.len() == 16,
        pos_vals.wf(e),
        c.wf(),
    ensures
        final(state)@.len() == 16,
        e.is_clear() ==> byte_values(e, final(state)@) == inv_sub_bytes(byte_values(e, old(state)@)),
{
    let ghost s0 = byte_values(e, state@);
    let mut i: usize = 0;
    while i < 16
        invariant
            state@.len() == 16,
            pos_vals.wf(e),
            c.wf(),
            i <= 16,
            s0.len() == 16,
            e.is_clear() ==> forall|j: int|
                0 <= j < 16 ==> #[trigger] e.byte_value(&state@[j]) == if j < i {
                    inv_sub_bytes(s0)[j]
                } else {
                    s0[j]
                },
        decreases 16 - i,
    {
        let v = sbox_inv_idx(&state[i], pos_vals, e, c);
        state.set(i, v);
        i = i + 1;
    }
    proof {
        if e.is_clear() {
            assert(byte_values(e, state@) =~= inv_sub_bytes(s0));
        }
    }
}

/// Where byte `i` comes from under ShiftRows, or under InvShiftRows.
pub open spec fn rows_src(inverse: bool, i: int) -> int {
    if inverse {
        inv_shift_rows_src(i)
    } else {
        shift_rows_src(i)
    }
}

/// The two row rotations undo each other on the sixteen places.
proof fn lemma_rows_src_inverse(inverse: bool)
    ensures
        forall|i: int|
            0 <= i < 16 ==> 0 <= #[trigger] rows_src(inverse, i) < 16 && rows_src(
                !inverse,
                rows_src(inverse, i),
            ) == i,
{
    assert forall|i: int| 0 <= i < 16 implies 0 <= #[trigger] rows_src(inverse, i) < 16 && rows_src(
        !inverse,
        rows_src(inverse, i),
    ) == i by {
        assert(i == 0 || i == 1 || i == 2 || i == 3 || i == 4 || i == 5 || i == 6 || i == 7 || i == 8 || i == 9 || i == 10 || i == 11 || i == 12 || i == 13 || i == 14 || i == 15);
    }
}

/// ShiftRows and InvShiftRows move the places of the state in opposite ways:
/// applied one after the other, in either order, they put every byte back in
/// its place.
pub proof fn lemma_shift_rows_places()
    ensures
        forall|i: int|
            0 <= i < 16 ==> 0 <= #[trigger] inv_shift_rows_src(i) < 16 && shift_rows_src(
                inv_shift_rows_src(i),
            ) == i,
        forall|i: int|
            0 <= i < 16 ==> 0 <= #[trigger] shift_rows_src(i) < 16 && inv_shift_rows_src(
                shift_rows_src(i),
            ) == i,
{
    lemma_rows_src_inverse(true);
    lemma_rows_src_inverse(false);
    assert forall|i: int| 0 <= i < 16 implies 0 <= #[trigger] inv_shift_rows_src(i) < 16 && shift_rows_src(
        inv_shift_rows_src(i),
    ) == i by {
        assert(rows_src(true, i) == inv_shift_rows_src(i));
    }
    assert forall|i: int| 0 <= i < 16 implies 0 <= #[trigger] shift_rows_src(i) < 16 && inv_shift_rows_src(
        shift_rows_src(i),
    ) == i by {
        assert(rows_src(false, i) == shift_rows_src(i));
    }
}

/// Moves the bytes of the state so that byte `i` comes from byte
/// `rows_src(inverse, i)`. The bytes themselves are moved, not recomputed:
/// no engine operation takes place.
fn permute<B>(state: &mut Vec<B>, inverse: bool)
    requires
        old(state)@.len() == 16,
    ensures
        final(state)@.len() == 16,
        forall|i: int| 0 <= i < 16 ==> #[trigger] final(state)@[i] == old(state)@[rows_src(inverse, i)],
{
    let ghost s0 = state@;
    let ghost other = !inverse;
    proof {
        lemma_rows_src_inverse(inverse);
        lemma_rows_src_inverse(!inverse);
    }
    let mut slots: Vec<Option<B>> = Vec::new();
    while state.len() > 0
        invariant
            state@.len() + slots@.len() == 16,
            s0.len() == 16,
            state@ == s0.subrange(0, state@.len() as int),
            forall|j: int| 0 <= j < slots@.len() ==> #[trigger] slots@[j] == Some(s0[15 - j]),
        decreases state@.len(),
    {
        let ghost before = state@;
        let b = state.pop().unwrap();
        proof {
            assert(b == s0[15 - slots@.len()]);
            assert(state@ =~= s0.subrange(0, state@.len() as int));
        }
        slots.push(Some(b));
    }
    let mut out: Vec<B> = Vec::new();
    let mut i: usize = 0;
    while i < 16
        invariant
            s0.len() == 16,
            slots@.len() == 16,
            i <= 16,
            out@.len() == i,
            forall|j: int| 0 <= j < i ==> #[trigger] out@[j] == s0[rows_src(inverse, j)],
            forall|x: int|
                0 <= x < 16 ==> #[trigger] slots@[15 - x] == if rows_src(other, x) < i {
                    None
                } else {
                    Some(s0[x])
                },
            forall|k: int|
                0 <= k < 16 ==> 0 <= #[trigger] rows_src(inverse, k) < 16 && rows_src(
                    other,
                    rows_src(inverse, k),
                ) == k,
            forall|k: int|
                0 <= k < 16 ==> 0 <= #[trigger] rows_src(other, k) < 16 && rows_src(
                    inverse,
                    rows_src(other, k),
                ) == k,
        decreases 16 - i,
    {
        let src = if inverse {
            (i + 16 - 4 * (i % 4)) % 16
        } else {
            (i + 4 * (i % 4)) % 16
        };
        assert(src as int == rows_src(inverse, i as int));
        let ghost before = slots@;
        let mut taken: Option<B> = None;
        slots.set_and_swap(15 - src, &mut taken);
        proof {
            assert(rows_src(other, src as int) == i as int);
            assert(before[15 - src as int] == Some(s0[src as int]));
            assert forall|x: int| 0 <= x < 16 implies #[trigger] slots@[15 - x] == if rows_src(
                other,
                x,
            ) < i + 1 {
                None
            } else {
                Some(s0[x])
            } by {
                if x != src as int {
                    assert(before[15 - x] == slots@[15 - x]);
                    if rows_src(other, x) == i as int {
                        assert(rows_src(inverse, rows_src(other, x)) == x);
                    }
                }
            }
        }
        match taken {
            Some(b) => {
                out.push(b);
            },
            None => {
                assert(false);
            },
        }
        i = i + 1;
    }
    *state = out;
}

/// ShiftRows: row `r` of the state turns left by `r` places.
fn shift_rows_fhe<E: Engine>(state: &mut Vec<E::Byte>, e: &E)
    requires
        old(state)@.len() == 16,
    ensures
        final(state)@.len() == 16,
        forall|i: int| 0 <= i < 16 ==> #[trigger] final(state)@[i] == old(state)@[shift_rows_src(i)],
        e.is_clear() ==> byte_values(e, final(state)@) == shift_rows(byte_values(e, old(state)@)),
{
    let ghost s0 = state@;
    permute(state, false);
    proof {
        if e.is_clear() {
            assert(byte_values(e, state@) =~= shift_rows(byte_values(e, s0)));
        }
    }
}

/// InvShiftRows: row `r` of the state turns right by `r` places.
fn inv_shift_rows_fhe<E: Engine>(state: &mut Vec<E::Byte>, e: &E)
    requires
        old(state)@.len() == 16,
    ensures
        final(state)@.len() == 16,
        forall|i: int|
            0 <= i < 16 ==> #[trigger] final(state)@[i] == old(state)@[inv_shift_rows_src(i)],
        e.is_clear() ==> byte_values(e, final(state)@) == inv_shift_rows(byte_values(e, old(state)@)),
{
    let ghost s0 = state@;
    permute(state, true);
    proof {
        if e.is_clear() {
            assert(byte_values(e, state@) =~= inv_shift_rows(byte_values(e, s0)));
        }
    }
}

/// MixColumns on each of the four columns, through the MixColumns circuit.
fn mix_columns_fhe<E: Engine>(state: &mut Vec<E::Byte>, pos_vals: &PosVals<E>, e: &E, c: &Circuits)
    requires
        old(state)@.len() == 16,
        pos_vals.wf(e),
        c.wf(),
    ensures
        final(state)@.len() == 16,
        e.is_clear() ==> byte_values(e, final(state)@) == mix_columns(byte_values(e, old(state)@)),
{
    let ghost s0 = byte_values(e, state@);
    let mut out: Vec<E::Byte> = Vec::new();
    let mut col: usize = 0;
    while col < 4
        invariant
            state@.len() == 16,
            s0 == byte_values(e, state@),
            pos_vals.wf(e),
            c.wf(),
            col <= 4,
            out@.len() == 4 * col,
            e.is_clear() ==> forall|j: int|
                0 <= j < 4 * col ==> #[trigger] e.byte_value(&out@[j]) == mix_columns(s0)[j],
        decreases 4 - col,
    {
        let mut col_clone: Vec<E::Byte> = Vec::new();
        col_clone.push(e.byte_copy(&state[4 * col]));
        col_clone.push(e.byte_copy(&state[4 * col + 1]));
        col_clone.push(e.byte_copy(&state[4 * col + 2]));
        col_clone.push(e.byte_copy(&state[4 * col + 3]));
        let mut m = mix_cols(&col_clone, pos_vals, e, c);
        let ghost before = out@;
        out.append(&mut m);
        proof {
            if e.is_clear() {
                let b = 4 * col as int;
                assert forall|j: int| 0 <= j < 4 * col + 4 implies #[trigger] e.byte_value(&out@[j])
                    == mix_columns(s0)[j] by {
                    if j >= b {
                        let p = j - b;
                        assert(j / 4 == col as int && j % 4 == p);
                        assert(byte_values(e, out@.subrange(b, b + 4))[p] == e.byte_value(&out@[j]));
                    } else {
                        assert(out@[j] == before[j]);
                    }
                }
            }
        }
        col = col + 1;
    }
    *state = out;
    proof {
        if e.is_clear() {
            assert(byte_values(e, state@) =~= mix_columns(s0));
        }
    }
}

/// Looks every byte of the state up in a public table.
fn lut_state<E: Engine>(state: &Vec<E::Byte>, tbl: &Vec<u8>, e: &E) -> (r: Vec<E::Byte>)
    requires
        state@.len() == 16,
        tbl@.len() == 256,
    ensures
        r@.len() == 16,
        e.is_clear() ==> forall|i: int|
            0 <= i < 16 ==> #[trigger] e.byte_value(&r@[i]) == tbl@[e.byte_value(&state@[i]) as int],
{
    let mut r: Vec<E::Byte> = Vec::new();
    let mut i: usize = 0;
    while i < 16
        invariant
            state@.len() == 16,
            tbl@.len() == 256,
            i <= 16,
            r@.len() == i,
            e.is_clear() ==> forall|j: int|
                0 <= j < i ==> #[trigger] e.byte_value(&r@[j]) == tbl@[e.byte_value(&state@[j]) as int],
        decreases 16 - i,
    {
        r.push(e.lookup(&state[i], tbl));
        i = i + 1;
    }
    r
}

/// Byte `i` of the result is the XOR of byte `idx1[i % 4]` of the column of
/// `i` in `g1` and byte `idx2[i % 4]` of that column in `g2`.
fn parallel_xor<E: Engine>(
    g1_state: &Vec<E::Byte>,
    g2_state: &Vec<E::Byte>,
    idx1: &Vec<usize>,
    idx2: &Vec<usize>,
    e: &E,
) -> (r: Vec<E::Byte>)
    requires
        g1_state@.len() == 16,
        g2_state@.len() == 16,
        idx1@.len() == 4,
        idx2@.len() == 4,
        forall|p: int| 0 <= p < 4 ==> #[trigger] idx1@[p] < 4 && idx2@[p] < 4,
    ensures
        r@.len() == 16,
        e.is_clear() ==> forall|i: int|
            0 <= i < 16 ==> #[trigger] e.byte_value(&r@[i]) == e.byte_value(
                &g1_state@[4 * (i / 4) + idx1@[i % 4]],
            ) ^ e.byte_value(&g2_state@[4 * (i / 4) + idx2@[i % 4]]),
{
    let mut r: Vec<E::Byte> = Vec::new();
    let mut i: usize = 0;
    while i < 16
        invariant
            g1_state@.len() == 16,
            g2_state@.len() == 16,
            idx1@.len() == 4,
            idx2@.len() == 4,
            forall|p: int| 0 <= p < 4 ==> #[trigger] idx1@[p] < 4 && idx2@[p] < 4,
            i <= 16,
            r@.len() == i,
            e.is_clear() ==> forall|j: int|
                0 <= j < i ==> #[trigger] e.byte_value(&r@[j]) == e.byte_value(
                    &g1_state@[4 * (j / 4) + idx1@[j % 4]],
                ) ^ e.byte_value(&g2_state@[4 * (j / 4) + idx2@[j % 4]]),
        decreases 16 - i,
    {
        let c = (i / 4) * 4;
        let p = i % 4;
        assert(idx1@[p as int] < 4 && idx2@[p as int] < 4);
        r.push(e.byte_xor(&g1_state[c + idx1[p]], &g2_state[c + idx2[p]]));
        i = i + 1;
    }
    r
}

proof fn lemma_xor4()
    ensures
        forall|a: u8, b: u8, c: u8, d: u8| #[trigger] ((a ^ b) ^ (c ^ d)) == ((d ^ b) ^ c) ^ a,
{
    assert(forall|a: u8, b: u8, c: u8, d: u8| #[trigger] ((a ^ b) ^ (c ^ d)) == ((d ^ b) ^ c) ^ a)
        by (bit_vector);
}

/// InvMixColumns by table lookups: each byte is multiplied by 9, 11, 13 and
/// 14 through the tables, and the products are XORed across each column.
#[verifier::spinoff_prover]
#[verifier::rlimit(100)]
fn inv_mix_columns_fhe<E: Engine>(state: &mut Vec<E::Byte>, c: &Circuits, e: &E)
    requires
        old(state)@.len() == 16,
        c.wf(),
    ensures
        final(state)@.len() == 16,
        e.is_clear() ==> byte_values(e, final(state)@) == inv_mix_columns(byte_values(e, old(state)@)),
{
    let ghost s0 = byte_values(e, state@);
    let g9_state = lut_state(state, &c.inv_mix.gmul9, e);
    let gb_state = lut_state(state, &c.inv_mix.gmulb, e);
    let gd_state = lut_state(state, &c.inv_mix.gmuld, e);
    let ge_state = lut_state(state, &c.inv_mix.gmule, e);
    let g9_idx: Vec<usize> = vec![3, 0, 1, 2];
    let gb_idx: Vec<usize> = vec![1, 2, 3, 0];
    let gd_idx: Vec<usize> = vec![2, 3, 0, 1];
    let ge_idx: Vec<usize> = vec![0, 1, 2, 3];
    let g9_gb_xor = parallel_xor(&g9_state, &gb_state, &g9_idx, &gb_idx, e);
    let gd_ge_xor = parallel_xor(&gd_state, &ge_state, &gd_idx, &ge_idx, e);
    let mut out: Vec<E::Byte> = Vec::new();
    let mut i: usize = 0;
    while i < 16
        invariant
            g9_gb_xor@.len() == 16,
            gd_ge_xor@.len() == 16,
            i <= 16,
            out@.len() == i,
            e.is_clear() ==> forall|j: int|
                0 <= j < i ==> #[trigger] e.byte_value(&out@[j]) == e.byte_value(&g9_gb_xor@[j])
                    ^ e.byte_value(&gd_ge_xor@[j]),
        decreases 16 - i,
    {
        out.push(e.byte_xor(&g9_gb_xor[i], &gd_ge_xor[i]));
        i = i + 1;
    }
    proof {
        if e.is_clear() {
            reveal(inv_mix_byte);
            lemma_xor4();
            let t = inv_mix_columns(s0);
            assert forall|i: int| 0 <= i < 16 implies #[trigger] byte_values(e, out@)[i] == t[i] by {
                let b = 4 * (i / 4);
                let p = i % 4;
                assert(i == 0 || i == 1 || i == 2 || i == 3 || i == 4 || i == 5 || i == 6 || i == 7 || i == 8 || i == 9 || i == 10 || i == 11 || i == 12 || i == 13 || i == 14 || i == 15);
                assert(g9_idx@[p] == (p + 3) % 4);
                assert(gb_idx@[p] == (p + 1) % 4);
                assert(gd_idx@[p] == (p + 2) % 4);
                assert(ge_idx@[p] == p);
                assert(e.byte_value(&g9_state@[b + (p + 3) % 4]) == mul9(s0[b + (p + 3) % 4]));
                assert(e.byte_value(&gb_state@[b + (p + 1) % 4]) == mul11(s0[b + (p + 1) % 4]));
                assert(e.byte_value(&gd_state@[b + (p + 2) % 4]) == mul13(s0[b + (p + 2) % 4]));
                assert(e.byte_value(&ge_state@[b + p]) == mul14(s0[b + p]));
            }
            assert(byte_values(e, out@) =~= t);
        }
    }
    *state = out;
}

/// Encrypts one block in place under the expanded key `xk`: the ten rounds of
/// AES-128 on engine values. A state that does not hold 16 bytes, or a key
/// that does not hold 176, is refused before any round and left as it is.
pub fn encrypt_one_block_fhe<E: Engine>(
    state: &mut Vec<E::Byte>,
    xk: &Vec<E::Byte>,
    pos_vals: &PosVals<E>,
    e: &E,
    c: &Circuits,
) -> (r: Result<(), BlockError>)
    requires
        pos_vals.wf(e),
        c.wf(),
    ensures
        old(state)@.len() != 16 ==> r == Err::<(), BlockError>(BlockError::StateLength),
        old(state)@.len() == 16 && xk@.len() != 176 ==> r == Err::<(), BlockError>(
            BlockError::KeyLength,
        ),
        old(state)@.len() == 16 && xk@.len() == 176 ==> r is Ok,
        r is Err ==> final(state)@ == old(state)@,
        r is Ok ==> final(state)@.len() == 16,
        r is Ok && e.is_clear() ==> byte_values(e, final(state)@) == aes_encrypt(
            byte_values(e, old(state)@),
            byte_values(e, xk@),
        ),
{
    if state.len() != BLOCKSIZE {
        return Err(BlockError::StateLength);
    }
    if xk.len() != ROUNDKEYSIZE {
        return Err(BlockError::KeyLength);
    }
    let ghost p = byte_values(e, state@);
    let ghost k = byte_values(e, xk@);
    add_round_key_fhe(state, xk, 0, e);
    let ghost e0 = add_round_key(p, k, 0);
    let mut round: usize = 1;
    while round < ROUNDS
        invariant
            pos_vals.wf(e),
            c.wf(),
            xk@.len() == 176,
            k == byte_values(e, xk@),
            1 <= round <= 10,
            state@.len() == 16,
            e.is_clear() ==> byte_values(e, state@) == enc_rounds(e0, k, round - 1),
        decreases 10 - round,
    {
        sub_bytes_fhe(state, pos_vals, e, c);
        shift_rows_fhe(state, e);
        mix_columns_fhe(state, pos_vals, e, c);
        add_round_key_fhe(state, xk, round, e);
        proof {
            if e.is_clear() {
                assert(enc_rounds(e0, k, round as int) == enc_round(enc_rounds(e0, k, round - 1), k, round as int));
            }
        }
        round = round + 1;
    }
    sub_bytes_fhe(state, pos_vals, e, c);
    shift_rows_fhe(state, e);
    add_round_key_fhe(state, xk, ROUNDS, e);
    Ok(())
}

/// Decrypts one block in place under the expanded key `xk`: the inverse
/// rounds, with InvMixColumns by table lookups. Refuses wrong sizes as
/// encryption does.
pub fn decrypt_one_block_fhe<E: Engine>(
    state: &mut Vec<E::Byte>,
    xk: &Vec<E::Byte>,
    pos_vals: &PosVals<E>,
    e: &E,
    c: &Circuits,
) -> (r: Result<(), BlockError>)
    requires
        pos_vals.wf(e),
        c.wf(),
    ensures
        old(state)@.len() != 16 ==> r == Err::<(), BlockError>(BlockError::StateLength),
        old(state)@.len() == 16 && xk@.len() != 176 ==> r == Err::<(), BlockError>(
            BlockError::KeyLength,
        ),
        old(state)@.len() == 16 && xk@.len() == 176 ==> r is Ok,
        r is Err ==> final(state)@ == old(state)@,
        r is Ok ==> final(state)@.len() == 16,
        r is Ok && e.is_clear() ==> byte_values(e, final(state)@) == aes_decrypt(
            byte_values(e, old(state)@),
            byte_values(e, xk@),
        ),
{
    if state.len() != BLOCKSIZE {
        return Err(BlockError::StateLength);
    }
    if xk.len() != ROUNDKEYSIZE {
        return Err(BlockError::KeyLength);
    }
    let ghost p = byte_values(e, state@);
    let ghost k = byte_values(e, xk@);
    add_round_key_fhe(state, xk, ROUNDS, e);
    let ghost d0 = add_round_key(p, k, 10);
    let mut round: usize = ROUNDS - 1;
    while round >= 1
        invariant
            pos_vals.wf(e),
            c.wf(),
            xk@.len() == 176,
            k == byte_values(e, xk@),
            0 <= round <= 9,
            state@.len() == 16,
            e.is_clear() ==> dec_rounds(byte_values(e, state@), k, round as int) == dec_rounds(d0, k, 9),
        decreases round,
    {
        let ghost before = byte_values(e, state@);
        inv_shift_rows_fhe(state, e);
        inv_sub_bytes_fhe(state, pos_vals, e, c);
        add_round_key_fhe(state, xk, round, e);
        inv_mix_columns_fhe(state, c, e);
        proof {
            if e.is_clear() {
                assert(byte_values(e, state@) == dec_round(before, k, round as int));
                assert(dec_rounds(before, k, round as int) == dec_rounds(dec_round(before, k, round as int), k, round - 1));
            }
        }
        round = round - 1;
    }
    inv_shift_rows_fhe(state, e);
    inv_sub_bytes_fhe(state, pos_vals, e, c);
    add_round_key_fhe(state, xk, 0, e);
    Ok(())
}

/// `n` encryptions of `p` one after another.
pub open spec fn encrypt_times(p: Seq<u8>, k: Seq<u8>, n: nat) -> Seq<u8>
    decreases n,
{
    if n == 0 {
        p
    } else {
        aes_encrypt(encrypt_times(p, k, (n - 1) as nat), k)
    }
}

/// `n` decryptions of `c` one after another.
pub open spec fn decrypt_times(c: Seq<u8>, k: Seq<u8>, n: nat) -> Seq<u8>
    decreases n,
{
    if n == 0 {
        c
    } else {
        aes_decrypt(decrypt_times(c, k, (n - 1) as nat), k)
    }
}

/// Copies a 16-byte array into a vector.
fn block_to_vec(b: &[u8; 16]) -> (v: Vec<u8>)
    ensures
        v@ == b@,
{
    let mut v: Vec<u8> = Vec::new();
    let mut i: usize = 0;
    while i < 16
        invariant
            i <= 16,
            v@ == b@.subrange(0, i as int),
        decreases 16 - i,
    {
        v.push(b[i]);
        i = i + 1;
    }
    v
}

/// Copies a 176-byte array into a vector.
fn key_to_vec(b: &[u8; 176]) -> (v: Vec<u8>)
    ensures
        v@ == b@,
{
    let mut v: Vec<u8> = Vec::new();
    let mut i: usize = 0;
    while i < 176
        invariant
            i <= 176,
            v@ == b@.subrange(0, i as int),
        decreases 176 - i,
    {
        v.push(b[i]);
        i = i + 1;
    }
    v
}

/// Writes the 16 bytes of `v` into `out`.
fn vec_to_block(v: &Vec<u8>, out: &mut [u8; 16])
    requires
        v@.len() == 16,
    ensures
        final(out)@ == v@,
{
    let mut i: usize = 0;
    while i < 16
        invariant
            v@.len() == 16,
            i <= 16,
            out@.len() == 16,
            forall|j: int| 0 <= j < i ==> #[trigger] out@[j] == v@[j],
        decreases 16 - i,
    {
        out[i] = v[i];
        i = i + 1;
    }
    assert(out@ =~= v@);
}

proof fn lemma_clear_values(s: Seq<u8>)
    ensures
        byte_values(&ClearEngine, s) == s,
{
    assert(byte_values(&ClearEngine, s) =~= s);
}

/// Encrypts the plain block `input` `iter` times over the engine on plain
/// values and writes the result to `output`.
pub fn encrypt_block_fhe(input: &[u8; 16], xk: &[u8; 176], output: &mut [u8; 16], iter: usize)
    ensures
        final(output)@ == encrypt_times(input@, xk@, iter as nat),
{
    let e = ClearEngine;
    let c = Circuits::new();
    let pos_vals = PosVals::new(&e);
    let mut state = block_to_vec(input);
    let xk_v = key_to_vec(xk);
    let mut i: usize = 0;
    while i < iter
        invariant
            pos_vals.wf(&e),
            c.wf(),
            xk_v@ == xk@,
            i <= iter,
            state@.len() == 16,
            state@ == encrypt_times(input@, xk@, i as nat),
        decreases iter - i,
    {
        let ghost before = state@;
        let r = encrypt_one_block_fhe(&mut state, &xk_v, &pos_vals, &e, &c);
        proof {
            assert(xk@.len() == 176);
            assert(r is Ok);
            lemma_clear_values(before);
            lemma_clear_values(state@);
            lemma_clear_values(xk_v@);
            assert(encrypt_times(input@, xk@, (i + 1) as nat) == aes_encrypt(encrypt_times(input@, xk@, i as nat), xk@));
        }
        i = i + 1;
    }
    vec_to_block(&state, output);
}

/// Decrypts the plain block `input` `iter` times over the engine on plain
/// values and writes the result to `output`.
pub fn decrypt_block_fhe(input: &[u8; 16], xk: &[u8; 176], output: &mut [u8; 16], iter: usize)
    ensures
        final(output)@ == decrypt_times(input@, xk@, iter as nat),
{
    let e = ClearEngine;
    let c = Circuits::new();
    let pos_vals = PosVals::new(&e);
    let mut state = block_to_vec(input);
    let xk_v = key_to_vec(xk);
    let mut i: usize = 0;
    while i < iter
        invariant
            pos_vals.wf(&e),
            c.wf(),
            xk_v@ == xk@,
            i <= iter,
            state@.len() == 16,
            state@ == decrypt_times(input@, xk@, i as nat),
        decreases iter - i,
    {
        let ghost before = state@;
        let r = decrypt_one_block_fhe(&mut state, &xk_v, &pos_vals, &e, &c);
        proof {
            assert(xk@.len() == 176);
            assert(r is Ok);
            lemma_clear_values(before);
            lemma_clear_values(state@);
            lemma_clear_values(xk_v@);
            assert(decrypt_times(input@, xk@, (i + 1) as nat) == aes_decrypt(decrypt_times(input@, xk@, i as nat), xk@));
        }
        i = i + 1;
    }
    vec_to_block(&state, output);
}

} // verus!
