use vstd::prelude::*;
use crate::aes::{mix_byte, mul2, mul3};
use crate::programs::{
    mix_columns_circuit_0,
    mix_columns_circuit_1,
    mix_columns_circuit_2,
    mix_columns_circuit_3,
};

verus! {

/// The MixColumns circuit computes MixColumns on every column.
pub proof fn lemma_mix_columns_circuit_is_mix(a: u8, b: u8, c: u8, d: u8)
    ensures
        mix_columns_circuit_0(a, b, c, d) == mix_byte(a, b, c, d),
        mix_columns_circuit_1(a, b, c, d) == mix_byte(b, c, d, a),
        mix_columns_circuit_2(a, b, c, d) == mix_byte(c, d, a, b),
        mix_columns_circuit_3(a, b, c, d) == mix_byte(d, a, b, c),
{
    reveal(mix_byte);
    assert(mix_columns_circuit_0(a, b, c, d) == mul2(a) ^ mul3(b) ^ c ^ d) by (bit_vector);
    assert(mix_columns_circuit_1(a, b, c, d) == mul2(b) ^ mul3(c) ^ d ^ a) by (bit_vector);
    assert(mix_columns_circuit_2(a, b, c, d) == mul2(c) ^ mul3(d) ^ a ^ b) by (bit_vector);
    assert(mix_columns_circuit_3(a, b, c, d) == mul2(d) ^ mul3(a) ^ b ^ c) by (bit_vector);
}

} // verus!
