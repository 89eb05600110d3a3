use vstd::prelude::*;
use crate::aes::{inv_sbox_table, mix_byte, mul11, mul13, mul14, mul9, sbox_table, xtime};
use crate::circuit::{Program, execute, read_outputs};
use crate::circuit_laws::lemma_mix_columns_circuit_is_mix;
use crate::codec::{PosVals, decompose, recompose};
use crate::engine::{Engine, bit_values, byte_values};
use crate::programs::{
    inv_sbox_program,
    is_inv_sbox_program,
    is_mix_columns_program,
    is_sbox_program,
    lemma_inv_sbox_program_meaning,
    lemma_mix_columns_program_meaning,
    lemma_sbox_program_meaning,
    mix_columns_program,
    sbox_program,
};

verus! {

/// The four GF(2^8) multiplication tables that InvMixColumns looks bytes up in.
pub struct InvMixTables {
    pub gmul9: Vec<u8>,
    pub gmulb: Vec<u8>,
    pub gmuld: Vec<u8>,
    pub gmule: Vec<u8>,
}

impl InvMixTables {
    pub open spec fn wf(&self) -> bool {
        &&& self.gmul9@.len() == 256
        &&& self.gmulb@.len() == 256
        &&& self.gmuld@.len() == 256
        &&& self.gmule@.len() == 256
        &&& forall|i: int| 0 <= i < 256 ==> #[trigger] self.gmul9@[i] == mul9(i as u8)
        &&& forall|i: int| 0 <= i < 256 ==> #[trigger] self.gmulb@[i] == mul11(i as u8)
        &&& forall|i: int| 0 <= i < 256 ==> #[trigger] self.gmuld@[i] == mul13(i as u8)
        &&& forall|i: int| 0 <= i < 256 ==> #[trigger] self.gmule@[i] == mul14(i as u8)
    }

    pub fn new() -> (t: Self)
        ensures
            t.wf(),
    {
        let mut gmul9: Vec<u8> = Vec::new();
        let mut gmulb: Vec<u8> = Vec::new();
        let mut gmuld: Vec<u8> = Vec::new();
        let mut gmule: Vec<u8> = Vec::new();
        let mut i: usize = 0;
        while i < 256
            invariant
                i <= 256,
                gmul9@.len() == i,
                gmulb@.len() == i,
                gmuld@.len() == i,
                gmule@.len() == i,
                forall|j: int| 0 <= j < i ==> #[trigger] gmul9@[j] == mul9(j as u8),
                forall|j: int| 0 <= j < i ==> #[trigger] gmulb@[j] == mul11(j as u8),
                forall|j: int| 0 <= j < i ==> #[trigger] gmuld@[j] == mul13(j as u8),
                forall|j: int| 0 <= j < i ==> #[trigger] gmule@[j] == mul14(j as u8),
            decreases 256 - i,
        {
            let x = i as u8;
            let x2 = gf_double(x);
            let x4 = gf_double(x2);
            let x8 = gf_double(x4);
            gmul9.push(x8 ^ x);
            gmulb.push(x8 ^ x2 ^ x);
            gmuld.push(x8 ^ x4 ^ x);
            gmule.push(x8 ^ x4 ^ x2);
            i = i + 1;
        }
        InvMixTables { gmul9, gmulb, gmuld, gmule }
    }
}

/// Multiplication by `x` in GF(2^8).
pub fn gf_double(x: u8) -> (r: u8)
    ensures
        r == xtime(x),
{
    assert((x >> 7u8) * 0x1bu8 < 256) by (bit_vector);
    (x << 1u8) ^ ((x >> 7u8) * 0x1bu8)
}

/// The fixed programs and tables, built and checked once, then only read.
pub struct Circuits {
    pub sbox: Program,
    pub inv_sbox: Program,
    pub mix_columns: Program,
    pub inv_mix: InvMixTables,
}

impl Circuits {
    pub open spec fn wf(&self) -> bool {
        &&& is_sbox_program(&self.sbox)
        &&& self.sbox.wf()
        &&& is_inv_sbox_program(&self.inv_sbox)
        &&& self.inv_sbox.wf()
        &&& is_mix_columns_program(&self.mix_columns)
        &&& self.mix_columns.wf()
        &&& self.inv_mix.wf()
    }

    pub fn new() -> (c: Self)
        ensures
            c.wf(),
    {
        Circuits {
            sbox: sbox_program(),
            inv_sbox: inv_sbox_program(),
            mix_columns: mix_columns_program(),
            inv_mix: InvMixTables::new(),
        }
    }
}

/// The AES S-box applied to one byte: split into bits, run through the S-box
/// circuit, joined again.
pub fn sbox_idx<E: Engine>(idx: &E::Byte, pos_vals: &PosVals<E>, e: &E, c: &Circuits) -> (r: E::Byte)
    requires
        pos_vals.wf(e),
        c.wf(),
    ensures
        e.is_clear() ==> e.byte_value(&r) == sbox_table(e.byte_value(idx)),
{
    let x_p = decompose(e, pos_vals, idx);
    let w = execute(e, &c.sbox, x_p);
    let res_p = read_outputs(e, &c.sbox, &w);
    let r = recompose(e, pos_vals, &res_p);
    proof {
        if e.is_clear() {
            let x = e.byte_value(idx);
            lemma_sbox_program_meaning(&c.sbox, x, bit_values(e, w@));
        }
    }
    r
}

/// The inverse AES S-box applied to one byte, through the inverse S-box circuit.
pub fn sbox_inv_idx<E: Engine>(idx: &E::Byte, pos_vals: &PosVals<E>, e: &E, c: &Circuits) -> (r: E::Byte)
    requires
        pos_vals.wf(e),
        c.wf(),
    ensures
        e.is_clear() ==> e.byte_value(&r) == inv_sbox_table(e.byte_value(idx)),
{
    let x_p = decompose(e, pos_vals, idx);
    let w = execute(e, &c.inv_sbox, x_p);
    let res_p = read_outputs(e, &c.inv_sbox, &w);
    let r = recompose(e, pos_vals, &res_p);
    proof {
        if e.is_clear() {
            let x = e.byte_value(idx);
            lemma_inv_sbox_program_meaning(&c.inv_sbox, x, bit_values(e, w@));
        }
    }
    r
}

/// Moves the bits of `b` onto the end of `acc`.
fn append_bits<E: Engine>(e: &E, acc: &mut Vec<E::Bit>, b: Vec<E::Bit>)
    ensures
        final(acc)@ == old(acc)@ + b@,
{
    let mut b = b;
    acc.append(&mut b);
}

/// Copies out the bits `8 * j .. 8 * j + 8` of a column's 32 bits.
fn take_byte_bits<E: Engine>(e: &E, bits: &Vec<E::Bit>, j: usize) -> (r: Vec<E::Bit>)
    requires
        j < 4,
        bits@.len() == 32,
    ensures
        r@.len() == 8,
        e.is_clear() ==> bit_values(e, r@) == bit_values(e, bits@).subrange(8 * j as int, 8 * j + 8),
{
    let mut r: Vec<E::Bit> = Vec::new();
    let mut i: usize = 0;
    while i < 8
        invariant
            j < 4,
            bits@.len() == 32,
            i <= 8,
            r@.len() == i,
            e.is_clear() ==> forall|k: int|
                0 <= k < i ==> e.bit_value(#[trigger] &r@[k]) == e.bit_value(&bits@[8 * j + k]),
        decreases 8 - i,
    {
        r.push(e.bit_copy(&bits[8 * j + i]));
        i = i + 1;
    }
    proof {
        if e.is_clear() {
            assert(bit_values(e, r@) =~= bit_values(e, bits@).subrange(8 * j as int, 8 * j + 8));
        }
    }
    r
}

/// MixColumns on one column of four bytes, through the MixColumns circuit.
pub fn mix_cols<E: Engine>(col: &Vec<E::Byte>, pos_vals: &PosVals<E>, e: &E, c: &Circuits) -> (r: Vec<E::Byte>)
    requires
        col@.len() == 4,
        pos_vals.wf(e),
        c.wf(),
    ensures
        r@.len() == 4,
        e.is_clear() ==> {
            let (a0, a1, a2, a3) = (
                e.byte_value(&col@[0]),
                e.byte_value(&col@[1]),
                e.byte_value(&col@[2]),
                e.byte_value(&col@[3]),
            );
            byte_values(e, r@) == seq![
                mix_byte(a0, a1, a2, a3),
                mix_byte(a1, a2, a3, a0),
                mix_byte(a2, a3, a0, a1),
                mix_byte(a3, a0, a1, a2),
            ]
        },
{
    let mut inp: Vec<E::Bit> = Vec::new();
    let r1_p = decompose(e, pos_vals, &col[0]);
    append_bits(e, &mut inp, r1_p);
    let r2_p = decompose(e, pos_vals, &col[1]);
    append_bits(e, &mut inp, r2_p);
    let r3_p = decompose(e, pos_vals, &col[2]);
    append_bits(e, &mut inp, r3_p);
    let r4_p = decompose(e, pos_vals, &col[3]);
    append_bits(e, &mut inp, r4_p);
    let ghost ins = inp@;
    proof {
        if e.is_clear() {
            let (a0, a1, a2, a3) = (
                e.byte_value(&col@[0]),
                e.byte_value(&col@[1]),
                e.byte_value(&col@[2]),
                e.byte_value(&col@[3]),
            );
            assert(bit_values(e, ins) =~= bit_values(e, r1_p@) + bit_values(e, r2_p@) + bit_values(
                e,
                r3_p@,
            ) + bit_values(e, r4_p@));
        }
    }
    let w = execute(e, &c.mix_columns, inp);
    let res_p = read_outputs(e, &c.mix_columns, &w);
    let out1 = recompose(e, pos_vals, &take_byte_bits(e, &res_p, 0));
    let out2 = recompose(e, pos_vals, &take_byte_bits(e, &res_p, 1));
    let out3 = recompose(e, pos_vals, &take_byte_bits(e, &res_p, 2));
    let out4 = recompose(e, pos_vals, &take_byte_bits(e, &res_p, 3));
    let mut r: Vec<E::Byte> = Vec::new();
    r.push(out1);
    r.push(out2);
    r.push(out3);
    r.push(out4);
    proof {
        if e.is_clear() {
            let (a0, a1, a2, a3) = (
                e.byte_value(&col@[0]),
                e.byte_value(&col@[1]),
                e.byte_value(&col@[2]),
                e.byte_value(&col@[3]),
            );
            lemma_mix_columns_program_meaning(&c.mix_columns, a0, a1, a2, a3, bit_values(e, w@));
            lemma_mix_columns_circuit_is_mix(a0, a1, a2, a3);
            assert(byte_values(e, r@) =~= seq![
                mix_byte(a0, a1, a2, a3),
                mix_byte(a1, a2, a3, a0),
                mix_byte(a2, a3, a0, a1),
                mix_byte(a3, a0, a1, a2),
            ]);
        }
    }
    r
}

} // verus!
