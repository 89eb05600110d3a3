use vstd::prelude::*;
use crate::engine::{Engine, bit_values};

verus! {

/// Bit `i` of `x`, counting from the least significant.
pub open spec fn bit(x: u8, i: u8) -> bool {
    (x >> i) & 1u8 == 1u8
}

/// The eight bits of `x`, least significant first.
pub open spec fn bits_of(x: u8) -> Seq<bool> {
    Seq::new(8, |i: int| bit(x, i as u8))
}

/// `2^i` where `b` is set, else zero.
pub open spec fn pick(b: bool, i: u8) -> u8 {
    if b {
        1u8 << i
    } else {
        0u8
    }
}

/// The byte whose bits, least significant first, are `b0 .. b7`.
pub open spec fn pack8(b0: bool, b1: bool, b2: bool, b3: bool, b4: bool, b5: bool, b6: bool, b7: bool) -> u8 {
    pick(b0, 0) | pick(b1, 1) | pick(b2, 2) | pick(b3, 3) | pick(b4, 4) | pick(b5, 5) | pick(
        b6,
        6,
    ) | pick(b7, 7)
}

/// The byte whose bits, least significant first, are the first eight of `s`.
pub open spec fn byte_of(s: Seq<bool>) -> u8 {
    pack8(s[0], s[1], s[2], s[3], s[4], s[5], s[6], s[7])
}

/// The OR of the first `n` terms `pick(s[i], i)`.
spec fn pack_upto(s: Seq<bool>, n: int) -> u8
    decreases n,
{
    if n <= 0 {
        0u8
    } else {
        pack_upto(s, n - 1) | pick(s[n - 1], (n - 1) as u8)
    }
}

proof fn lemma_pack_upto(s: Seq<bool>)
    ensures
        pack_upto(s, 8) == byte_of(s),
{
    let p0 = pick(s[0], 0);
    let p1 = pick(s[1], 1);
    let p2 = pick(s[2], 2);
    let p3 = pick(s[3], 3);
    let p4 = pick(s[4], 4);
    let p5 = pick(s[5], 5);
    let p6 = pick(s[6], 6);
    let p7 = pick(s[7], 7);
    reveal_with_fuel(pack_upto, 9);
    assert(pack_upto(s, 8) == 0u8 | p0 | p1 | p2 | p3 | p4 | p5 | p6 | p7);
    assert(0u8 | p0 | p1 | p2 | p3 | p4 | p5 | p6 | p7 == p0 | p1 | p2 | p3 | p4 | p5 | p6 | p7)
        by (bit_vector);
}

/// Recomposing the bits of a byte gives the byte back.
pub proof fn lemma_byte_of_bits(x: u8)
    ensures
        byte_of(bits_of(x)) == x,
{
    let b = bits_of(x);
    assert(b[0] == bit(x, 0));
    assert(b[1] == bit(x, 1));
    assert(b[2] == bit(x, 2));
    assert(b[3] == bit(x, 3));
    assert(b[4] == bit(x, 4));
    assert(b[5] == bit(x, 5));
    assert(b[6] == bit(x, 6));
    assert(b[7] == bit(x, 7));
    assert(pack8(bit(x, 0), bit(x, 1), bit(x, 2), bit(x, 3), bit(x, 4), bit(x, 5), bit(x, 6), bit(x, 7)) == x)
        by (bit_vector);
}

/// Splitting the recomposition of eight bits gives the bits back.
pub proof fn lemma_bits_of_byte(s: Seq<bool>)
    requires
        s.len() == 8,
    ensures
        bits_of(byte_of(s)) == s,
{
    let (b0, b1, b2, b3, b4, b5, b6, b7) = (s[0], s[1], s[2], s[3], s[4], s[5], s[6], s[7]);
    let x = pack8(b0, b1, b2, b3, b4, b5, b6, b7);
    assert(bit(x, 0) == b0 && bit(x, 1) == b1 && bit(x, 2) == b2 && bit(x, 3) == b3 && bit(x, 4)
        == b4 && bit(x, 5) == b5 && bit(x, 6) == b6 && bit(x, 7) == b7) by (bit_vector)
        requires
            x == pack8(b0, b1, b2, b3, b4, b5, b6, b7),
    ;
    assert(bits_of(x) =~= s);
}

/// The public constants of the codec: the eight powers of two and zero, as
/// values of one engine. Built once and only read afterwards.
pub struct PosVals<E: Engine> {
    p_b: Vec<E::Byte>,
    v_0: E::Byte,
}

impl<E: Engine> PosVals<E> {
    /// The eight powers of two, least first.
    pub closed spec fn powers(&self) -> Seq<E::Byte> {
        self.p_b@
    }

    /// The zero constant.
    pub closed spec fn zero(&self) -> E::Byte {
        self.v_0
    }

    /// There are eight powers, and for an engine whose values agree with
    /// plain bytes, power `i` is `2^i` and the zero constant is `0`.
    pub open spec fn wf(&self, e: &E) -> bool {
        &&& self.powers().len() == 8
        &&& e.is_clear() ==> {
            &&& forall|i: int|
                0 <= i < 8 ==> #[trigger] e.byte_value(&self.powers()[i]) == 1u8 << (i as u8)
            &&& e.byte_value(&self.zero()) == 0
        }
    }

    /// Takes constants built elsewhere, such as encrypted under a client key.
    pub fn from_parts(e: &E, p_b: Vec<E::Byte>, v_0: E::Byte) -> (r: Self)
        requires
            p_b@.len() == 8,
            e.is_clear() ==> forall|i: int|
                0 <= i < 8 ==> #[trigger] e.byte_value(&p_b@[i]) == 1u8 << (i as u8),
            e.is_clear() ==> e.byte_value(&v_0) == 0,
        ensures
            r.wf(e),
            r.powers() == p_b@,
            r.zero() == v_0,
    {
        PosVals { p_b, v_0 }
    }

    /// Builds the constants with the engine's `byte_const`.
    pub fn new(e: &E) -> (r: Self)
        ensures
            r.wf(e),
    {
        let mut p_b: Vec<E::Byte> = Vec::new();
        let mut i: u8 = 0;
        while i < 8
            invariant
                i <= 8,
                p_b@.len() == i,
                e.is_clear() ==> forall|j: int|
                    0 <= j < i ==> #[trigger] e.byte_value(&p_b@[j]) == 1u8 << (j as u8),
            decreases 8 - i,
        {
            p_b.push(e.byte_const(1u8 << i));
            i = i + 1;
        }
        PosVals { p_b, v_0: e.byte_const(0) }
    }

    /// The powers of two, least first.
    pub fn get_p_b(&self) -> (r: &Vec<E::Byte>)
        ensures
            r@ == self.powers(),
    {
        &self.p_b
    }

    /// Zero.
    pub fn get_v_0(&self) -> (r: &E::Byte)
        ensures
            *r == self.zero(),
    {
        &self.v_0
    }
}

/// Splits a byte into its eight bits, least significant first: bit `i` is
/// whether `2^i & x == 2^i`.
pub fn decompose<E: Engine>(e: &E, pv: &PosVals<E>, x: &E::Byte) -> (r: Vec<E::Bit>)
    requires
        pv.wf(e),
    ensures
        r@.len() == 8,
        e.is_clear() ==> bit_values(e, r@) == bits_of(e.byte_value(x)),
{
    let mut r: Vec<E::Bit> = Vec::new();
    let mut i: usize = 0;
    while i < 8
        invariant
            pv.wf(e),
            i <= 8,
            r@.len() == i,
            e.is_clear() ==> forall|j: int|
                0 <= j < i ==> #[trigger] e.bit_value(&r@[j]) == bit(e.byte_value(x), j as u8),
        decreases 8 - i,
    {
        let p = &pv.p_b[i];
        let mask = e.byte_and(p, x);
        let b = e.byte_eq(&mask, p);
        proof {
            if e.is_clear() {
                let v = e.byte_value(x);
                let k = i as u8;
                assert(e.byte_value(p) == 1u8 << k);
                assert((((1u8 << k) & v) == (1u8 << k)) == bit(v, k)) by (bit_vector)
                    requires
                        k < 8,
                ;
            }
        }
        r.push(b);
        i = i + 1;
    }
    proof {
        if e.is_clear() {
            assert(bit_values(e, r@) =~= bits_of(e.byte_value(x)));
        }
    }
    r
}

/// Joins eight bits, least significant first, into a byte: the OR of
/// `select(bit_i, 2^i, 0)`.
pub fn recompose<E: Engine>(e: &E, pv: &PosVals<E>, bits: &Vec<E::Bit>) -> (r: E::Byte)
    requires
        pv.wf(e),
        bits@.len() == 8,
    ensures
        e.is_clear() ==> e.byte_value(&r) == byte_of(bit_values(e, bits@)),
{
    let ghost s = bit_values(e, bits@);
    let mut r = e.byte_copy(&pv.v_0);
    let mut i: usize = 0;
    while i < 8
        invariant
            pv.wf(e),
            bits@.len() == 8,
            s == bit_values(e, bits@),
            i <= 8,
            e.is_clear() ==> e.byte_value(&r) == pack_upto(s, i as int),
        decreases 8 - i,
    {
        let t = e.select(&bits[i], &pv.p_b[i], &pv.v_0);
        r = e.byte_or(&r, &t);
        proof {
            if e.is_clear() {
                assert(e.byte_value(&pv.p_b@[i as int]) == 1u8 << (i as u8));
            }
        }
        i = i + 1;
    }
    proof {
        lemma_pack_upto(s);
    }
    r
}

} // verus!
