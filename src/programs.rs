//! The three fixed gate programs, in index form, with what each computes.
//!
//! - The S-box: the 119-instruction circuit of Boyar and Peralta (IACR ePrint
//!   2009/191). Its inputs `x0 .. x7` are the bits of the byte from the most
//!   significant down, its outputs `s0 .. s7` likewise.
//! - The inverse S-box: a normal-basis circuit in the same bit order.
//! - MixColumns: a 92-XOR circuit (IACR ePrint 2019/833) on the 32 bits of a
//!   column, `x0 .. x7` being the bits of its first byte from the least
//!   significant up, and so on; the outputs `y0 .. y31` are laid out alike.
//!
//! Wire `i < n_inputs` of a program is input bit `i`, least significant bit
//! of each byte first; instruction `k` writes wire `n_inputs + k`. The comment
//! beside each instruction gives it with the circuit's own wire names.

use vstd::prelude::*;
use crate::circuit::{Gate, GateOp, Program};
use crate::aes::{inv_sbox_table, sbox_table};
use crate::codec::{bit, bits_of, byte_of, pack8};

verus! {

pub open spec fn xor_gate(a: usize, b: usize) -> Gate {
    Gate { op: GateOp::Xor, lhs: a, rhs: b }
}

pub open spec fn and_gate(a: usize, b: usize) -> Gate {
    Gate { op: GateOp::And, lhs: a, rhs: b }
}

pub open spec fn not_gate(a: usize) -> Gate {
    Gate { op: GateOp::Not, lhs: a, rhs: a }
}

fn xor(a: usize, b: usize) -> (g: Gate)
    ensures
        g == xor_gate(a, b),
{
    Gate { op: GateOp::Xor, lhs: a, rhs: b }
}

fn and(a: usize, b: usize) -> (g: Gate)
    ensures
        g == and_gate(a, b),
{
    Gate { op: GateOp::And, lhs: a, rhs: b }
}

fn not(a: usize) -> (g: Gate)
    ensures
        g == not_gate(a),
{
    Gate { op: GateOp::Not, lhs: a, rhs: a }
}

pub const SBOX_GATES: usize = 119;

/// Instruction `k` of the sbox program.
pub open spec fn sbox_gate(k: int) -> Gate {
    if k == 0 {
        xor_gate(4, 2)
    } else if k == 1 {
        xor_gate(7, 1)
    } else if k == 2 {
        xor_gate(7, 4)
    } else if k == 3 {
        xor_gate(7, 2)
    } else if k == 4 {
        xor_gate(6, 5)
    } else if k == 5 {
        xor_gate(12, 0)
    } else if k == 6 {
        xor_gate(13, 4)
    } else if k == 7 {
        xor_gate(9, 8)
    } else if k == 8 {
        xor_gate(13, 7)
    } else if k == 9 {
        xor_gate(13, 1)
    } else if k == 10 {
        xor_gate(17, 11)
    } else if k == 11 {
        xor_gate(3, 15)
    } else if k == 12 {
        xor_gate(19, 2)
    } else if k == 13 {
        xor_gate(19, 6)
    } else if k == 14 {
        xor_gate(20, 0)
    } else if k == 15 {
        xor_gate(20, 12)
    } else if k == 16 {
        xor_gate(21, 10)
    } else if k == 17 {
        xor_gate(0, 24)
    } else if k == 18 {
        xor_gate(23, 24)
    } else if k == 19 {
        xor_gate(23, 11)
    } else if k == 20 {
        xor_gate(12, 24)
    } else if k == 21 {
        xor_gate(9, 28)
    } else if k == 22 {
        xor_gate(7, 28)
    } else if k == 23 {
        and_gate(15, 20)
    } else if k == 24 {
        and_gate(18, 22)
    } else if k == 25 {
        xor_gate(32, 31)
    } else if k == 26 {
        and_gate(14, 0)
    } else if k == 27 {
        xor_gate(34, 31)
    } else if k == 28 {
        and_gate(9, 28)
    } else if k == 29 {
        and_gate(17, 13)
    } else if k == 30 {
        xor_gate(37, 36)
    } else if k == 31 {
        and_gate(16, 25)
    } else if k == 32 {
        xor_gate(39, 36)
    } else if k == 33 {
        and_gate(10, 24)
    } else if k == 34 {
        and_gate(8, 26)
    } else if k == 35 {
        xor_gate(42, 41)
    } else if k == 36 {
        and_gate(11, 23)
    } else if k == 37 {
        xor_gate(44, 41)
    } else if k == 38 {
        xor_gate(33, 43)
    } else if k == 39 {
        xor_gate(35, 45)
    } else if k == 40 {
        xor_gate(38, 43)
    } else if k == 41 {
        xor_gate(40, 45)
    } else if k == 42 {
        xor_gate(46, 21)
    } else if k == 43 {
        xor_gate(47, 27)
    } else if k == 44 {
        xor_gate(48, 29)
    } else if k == 45 {
        xor_gate(49, 30)
    } else if k == 46 {
        xor_gate(50, 51)
    } else if k == 47 {
        and_gate(50, 52)
    } else if k == 48 {
        xor_gate(53, 55)
    } else if k == 49 {
        and_gate(54, 56)
    } else if k == 50 {
        xor_gate(57, 51)
    } else if k == 51 {
        xor_gate(52, 53)
    } else if k == 52 {
        xor_gate(51, 55)
    } else if k == 53 {
        and_gate(60, 59)
    } else if k == 54 {
        xor_gate(61, 53)
    } else if k == 55 {
        xor_gate(52, 62)
    } else if k == 56 {
        xor_gate(56, 62)
    } else if k == 57 {
        and_gate(53, 64)
    } else if k == 58 {
        xor_gate(65, 63)
    } else if k == 59 {
        xor_gate(56, 65)
    } else if k == 60 {
        and_gate(58, 67)
    } else if k == 61 {
        xor_gate(54, 68)
    } else if k == 62 {
        xor_gate(69, 66)
    } else if k == 63 {
        xor_gate(58, 62)
    } else if k == 64 {
        xor_gate(58, 69)
    } else if k == 65 {
        xor_gate(62, 66)
    } else if k == 66 {
        xor_gate(71, 70)
    } else if k == 67 {
        and_gate(73, 20)
    } else if k == 68 {
        and_gate(66, 22)
    } else if k == 69 {
        and_gate(62, 0)
    } else if k == 70 {
        and_gate(72, 28)
    } else if k == 71 {
        and_gate(69, 13)
    } else if k == 72 {
        and_gate(58, 25)
    } else if k == 73 {
        and_gate(71, 24)
    } else if k == 74 {
        and_gate(74, 26)
    } else if k == 75 {
        and_gate(70, 23)
    } else if k == 76 {
        and_gate(73, 15)
    } else if k == 77 {
        and_gate(66, 18)
    } else if k == 78 {
        and_gate(62, 14)
    } else if k == 79 {
        and_gate(72, 9)
    } else if k == 80 {
        and_gate(69, 17)
    } else if k == 81 {
        and_gate(58, 16)
    } else if k == 82 {
        and_gate(71, 10)
    } else if k == 83 {
        and_gate(74, 8)
    } else if k == 84 {
        and_gate(70, 11)
    } else if k == 85 {
        xor_gate(90, 91)
    } else if k == 86 {
        xor_gate(85, 86)
    } else if k == 87 {
        xor_gate(80, 88)
    } else if k == 88 {
        xor_gate(84, 85)
    } else if k == 89 {
        xor_gate(77, 87)
    } else if k == 90 {
        xor_gate(77, 80)
    } else if k == 91 {
        xor_gate(82, 83)
    } else if k == 92 {
        xor_gate(75, 78)
    } else if k == 93 {
        xor_gate(81, 82)
    } else if k == 94 {
        xor_gate(91, 92)
    } else if k == 95 {
        xor_gate(87, 95)
    } else if k == 96 {
        xor_gate(97, 100)
    } else if k == 97 {
        xor_gate(79, 93)
    } else if k == 98 {
        xor_gate(78, 101)
    } else if k == 99 {
        xor_gate(93, 104)
    } else if k == 100 {
        xor_gate(89, 104)
    } else if k == 101 {
        xor_gate(99, 105)
    } else if k == 102 {
        xor_gate(96, 105)
    } else if k == 103 {
        xor_gate(79, 106)
    } else if k == 104 {
        xor_gate(108, 109)
    } else if k == 105 {
        xor_gate(76, 110)
    } else if k == 106 {
        xor_gate(111, 112)
    } else if k == 107 {
        xor_gate(95, 107)
    } else if k == 108 {
        not_gate(115)
    } else if k == 109 {
        xor_gate(103, 109)
    } else if k == 110 {
        not_gate(117)
    } else if k == 111 {
        xor_gate(94, 112)
    } else if k == 112 {
        xor_gate(98, 113)
    } else if k == 113 {
        xor_gate(100, 113)
    } else if k == 114 {
        xor_gate(102, 114)
    } else if k == 115 {
        not_gate(122)
    } else if k == 116 {
        xor_gate(111, 121)
    } else if k == 117 {
        not_gate(124)
    } else {
        xor_gate(106, 110)
    }
}

/// Output `i` of the sbox program.
pub open spec fn sbox_output(i: int) -> usize {
    if i == 0 {
        116
    } else if i == 1 {
        118
    } else if i == 2 {
        119
    } else if i == 3 {
        120
    } else if i == 4 {
        121
    } else if i == 5 {
        123
    } else if i == 6 {
        125
    } else {
        126
    }
}

fn sbox_gate_at(k: usize) -> (g: Gate)
    requires
        k < SBOX_GATES,
    ensures
        g == sbox_gate(k as int),
{
    match k {
        0 => xor(4, 2),  // y14 = x3 ^ x5
        1 => xor(7, 1),  // y13 = x0 ^ x6
        2 => xor(7, 4),  // y9 = x0 ^ x3
        3 => xor(7, 2),  // y8 = x0 ^ x5
        4 => xor(6, 5),  // t0 = x1 ^ x2
        5 => xor(12, 0),  // y1 = t0 ^ x7
        6 => xor(13, 4),  // y4 = y1 ^ x3
        7 => xor(9, 8),  // y12 = y13 ^ y14
        8 => xor(13, 7),  // y2 = y1 ^ x0
        9 => xor(13, 1),  // y5 = y1 ^ x6
        10 => xor(17, 11),  // y3 = y5 ^ y8
        11 => xor(3, 15),  // t1 = x4 ^ y12
        12 => xor(19, 2),  // y15 = t1 ^ x5
        13 => xor(19, 6),  // y20 = t1 ^ x1
        14 => xor(20, 0),  // y6 = y15 ^ x7
        15 => xor(20, 12),  // y10 = y15 ^ t0
        16 => xor(21, 10),  // y11 = y20 ^ y9
        17 => xor(0, 24),  // y7 = x7 ^ y11
        18 => xor(23, 24),  // y17 = y10 ^ y11
        19 => xor(23, 11),  // y19 = y10 ^ y8
        20 => xor(12, 24),  // y16 = t0 ^ y11
        21 => xor(9, 28),  // y21 = y13 ^ y16
        22 => xor(7, 28),  // y18 = x0 ^ y16
        23 => and(15, 20),  // t2 = y12 & y15
        24 => and(18, 22),  // t3 = y3 & y6
        25 => xor(32, 31),  // t4 = t3 ^ t2
        26 => and(14, 0),  // t5 = y4 & x7
        27 => xor(34, 31),  // t6 = t5 ^ t2
        28 => and(9, 28),  // t7 = y13 & y16
        29 => and(17, 13),  // t8 = y5 & y1
        30 => xor(37, 36),  // t9 = t8 ^ t7
        31 => and(16, 25),  // t10 = y2 & y7
        32 => xor(39, 36),  // t11 = t10 ^ t7
        33 => and(10, 24),  // t12 = y9 & y11
        34 => and(8, 26),  // t13 = y14 & y17
        35 => xor(42, 41),  // t14 = t13 ^ t12
        36 => and(11, 23),  // t15 = y8 & y10
        37 => xor(44, 41),  // t16 = t15 ^ t12
        38 => xor(33, 43),  // t17 = t4 ^ t14
        39 => xor(35, 45),  // t18 = t6 ^ t16
        40 => xor(38, 43),  // t19 = t9 ^ t14
        41 => xor(40, 45),  // t20 = t11 ^ t16
        42 => xor(46, 21),  // t21 = t17 ^ y20
        43 => xor(47, 27),  // t22 = t18 ^ y19
        44 => xor(48, 29),  // t23 = t19 ^ y21
        45 => xor(49, 30),  // t24 = t20 ^ y18
        46 => xor(50, 51),  // t25 = t21 ^ t22
        47 => and(50, 52),  // t26 = t21 & t23
        48 => xor(53, 55),  // t27 = t24 ^ t26
        49 => and(54, 56),  // t28 = t25 & t27
        50 => xor(57, 51),  // t29 = t28 ^ t22
        51 => xor(52, 53),  // t30 = t23 ^ t24
        52 => xor(51, 55),  // t31 = t22 ^ t26
        53 => and(60, 59),  // t32 = t31 & t30
        54 => xor(61, 53),  // t33 = t32 ^ t24
        55 => xor(52, 62),  // t34 = t23 ^ t33
        56 => xor(56, 62),  // t35 = t27 ^ t33
        57 => and(53, 64),  // t36 = t24 & t35
        58 => xor(65, 63),  // t37 = t36 ^ t34
        59 => xor(56, 65),  // t38 = t27 ^ t36
        60 => and(58, 67),  // t39 = t29 & t38
        61 => xor(54, 68),  // t40 = t25 ^ t39
        62 => xor(69, 66),  // t41 = t40 ^ t37
        63 => xor(58, 62),  // t42 = t29 ^ t33
        64 => xor(58, 69),  // t43 = t29 ^ t40
        65 => xor(62, 66),  // t44 = t33 ^ t37
        66 => xor(71, 70),  // t45 = t42 ^ t41
        67 => and(73, 20),  // z0 = t44 & y15
        68 => and(66, 22),  // z1 = t37 & y6
        69 => and(62, 0),  // z2 = t33 & x7
        70 => and(72, 28),  // z3 = t43 & y16
        71 => and(69, 13),  // z4 = t40 & y1
        72 => and(58, 25),  // z5 = t29 & y7
        73 => and(71, 24),  // z6 = t42 & y11
        74 => and(74, 26),  // z7 = t45 & y17
        75 => and(70, 23),  // z8 = t41 & y10
        76 => and(73, 15),  // z9 = t44 & y12
        77 => and(66, 18),  // z10 = t37 & y3
        78 => and(62, 14),  // z11 = t33 & y4
        79 => and(72, 9),  // z12 = t43 & y13
        80 => and(69, 17),  // z13 = t40 & y5
        81 => and(58, 16),  // z14 = t29 & y2
        82 => and(71, 10),  // z15 = t42 & y9
        83 => and(74, 8),  // z16 = t45 & y14
        84 => and(70, 11),  // z17 = t41 & y8
        85 => xor(90, 91),  // t46 = z15 ^ z16
        86 => xor(85, 86),  // t47 = z10 ^ z11
        87 => xor(80, 88),  // t48 = z5 ^ z13
        88 => xor(84, 85),  // t49 = z9 ^ z10
        89 => xor(77, 87),  // t50 = z2 ^ z12
        90 => xor(77, 80),  // t51 = z2 ^ z5
        91 => xor(82, 83),  // t52 = z7 ^ z8
        92 => xor(75, 78),  // t53 = z0 ^ z3
        93 => xor(81, 82),  // t54 = z6 ^ z7
        94 => xor(91, 92),  // t55 = z16 ^ z17
        95 => xor(87, 95),  // t56 = z12 ^ t48
        96 => xor(97, 100),  // t57 = t50 ^ t53
        97 => xor(79, 93),  // t58 = z4 ^ t46
        98 => xor(78, 101),  // t59 = z3 ^ t54
        99 => xor(93, 104),  // t60 = t46 ^ t57
        100 => xor(89, 104),  // t61 = z14 ^ t57
        101 => xor(99, 105),  // t62 = t52 ^ t58
        102 => xor(96, 105),  // t63 = t49 ^ t58
        103 => xor(79, 106),  // t64 = z4 ^ t59
        104 => xor(108, 109),  // t65 = t61 ^ t62
        105 => xor(76, 110),  // t66 = z1 ^ t63
        106 => xor(111, 112),  // t67 = t64 ^ t65
        107 => xor(95, 107),  // s77 = t48 ^ t60
        108 => not(115),  // s7 = !s77
        109 => xor(103, 109),  // s66 = t56 ^ t62
        110 => not(117),  // s6 = !s66
        111 => xor(94, 112),  // s5 = t47 ^ t65
        112 => xor(98, 113),  // s4 = t51 ^ t66
        113 => xor(100, 113),  // s3 = t53 ^ t66
        114 => xor(102, 114),  // s22 = t55 ^ t67
        115 => not(122),  // s2 = !s22
        116 => xor(111, 121),  // s11 = t64 ^ s3
        117 => not(124),  // s1 = !s11
        _ => xor(106, 110),  // s0 = t59 ^ t63
    }
}

fn sbox_output_at(i: usize) -> (o: usize)
    requires
        i < 8,
    ensures
        o == sbox_output(i as int),
{
    match i {
        0 => 116,
        1 => 118,
        2 => 119,
        3 => 120,
        4 => 121,
        5 => 123,
        6 => 125,
        _ => 126,
    }
}

/// `p` is the sbox program.
pub open spec fn is_sbox_program(p: &Program) -> bool {
    &&& p.n_inputs == 8
    &&& p.gates@.len() == SBOX_GATES
    &&& p.outputs@.len() == 8
    &&& forall|k: int| 0 <= k < SBOX_GATES ==> #[trigger] p.gates@[k] == sbox_gate(k)
    &&& forall|i: int| 0 <= i < 8 ==> #[trigger] p.outputs@[i] == sbox_output(i)
}

pub fn sbox_program() -> (p: Program)
    ensures
        is_sbox_program(&p),
        p.wf(),
{
    let mut gates: Vec<Gate> = Vec::new();
    let mut k: usize = 0;
    while k < SBOX_GATES
        invariant
            k <= SBOX_GATES,
            gates@.len() == k,
            forall|j: int| 0 <= j < k ==> #[trigger] gates@[j] == sbox_gate(j),
        decreases SBOX_GATES - k,
    {
        gates.push(sbox_gate_at(k));
        k = k + 1;
    }
    let mut outputs: Vec<usize> = Vec::new();
    let mut i: usize = 0;
    while i < 8
        invariant
            i <= 8,
            outputs@.len() == i,
            forall|j: int| 0 <= j < i ==> #[trigger] outputs@[j] == sbox_output(j),
        decreases 8 - i,
    {
        outputs.push(sbox_output_at(i));
        i = i + 1;
    }
    let p = Program { n_inputs: 8, gates, outputs };
    proof {
        lemma_sbox_program_wf(&p);
    }
    p
}

proof fn lemma_sbox_program_wf(p: &Program)
    requires
        is_sbox_program(p),
    ensures
        p.wf(),
{
    assert forall|k: int| 0 <= k < p.gates@.len() implies #[trigger] p.gate_ok(k) by {
        assert(p.gates@[k] == sbox_gate(k));
    }
    assert forall|i: int| 0 <= i < p.outputs@.len() implies #[trigger] p.outputs@[i] < p.n_wires() by {
        assert(p.outputs@[i] == sbox_output(i));
    }
}

/// The outputs of the sbox program, read as a byte, are the table entry of its input.
#[verifier::spinoff_prover]
#[verifier::rlimit(40)]
pub proof fn lemma_sbox_program_meaning(p: &Program, x: u8, w: Seq<bool>)
    requires
        is_sbox_program(p),
        p.consistent(bits_of(x), w),
    ensures
        byte_of(p.read_outputs(w)) == sbox_table(x),
{
    let o = p.read_outputs(w);
    assert(w[0] == w.subrange(0, 8)[0]);
    assert(w[1] == w.subrange(0, 8)[1]);
    assert(w[2] == w.subrange(0, 8)[2]);
    assert(w[3] == w.subrange(0, 8)[3]);
    assert(w[4] == w.subrange(0, 8)[4]);
    assert(w[5] == w.subrange(0, 8)[5]);
    assert(w[6] == w.subrange(0, 8)[6]);
    assert(w[7] == w.subrange(0, 8)[7]);
    assert(p.gate_holds(w, 0));
    assert(p.gate_holds(w, 1));
    assert(p.gate_holds(w, 2));
    assert(p.gate_holds(w, 3));
    assert(p.gate_holds(w, 4));
    assert(p.gate_holds(w, 5));
    assert(p.gate_holds(w, 6));
    assert(p.gate_holds(w, 7));
    assert(p.gate_holds(w, 8));
    assert(p.gate_holds(w, 9));
    assert(p.gate_holds(w, 10));
    assert(p.gate_holds(w, 11));
    assert(p.gate_holds(w, 12));
    assert(p.gate_holds(w, 13));
    assert(p.gate_holds(w, 14));
    assert(p.gate_holds(w, 15));
    assert(p.gate_holds(w, 16));
    assert(p.gate_holds(w, 17));
    assert(p.gate_holds(w, 18));
    assert(p.gate_holds(w, 19));
    assert(p.gate_holds(w, 20));
    assert(p.gate_holds(w, 21));
    assert(p.gate_holds(w, 22));
    assert(p.gate_holds(w, 23));
    assert(p.gate_holds(w, 24));
    assert(p.gate_holds(w, 25));
    assert(p.gate_holds(w, 26));
    assert(p.gate_holds(w, 27));
    assert(p.gate_holds(w, 28));
    assert(p.gate_holds(w, 29));
    assert(p.gate_holds(w, 30));
    assert(p.gate_holds(w, 31));
    assert(p.gate_holds(w, 32));
    assert(p.gate_holds(w, 33));
    assert(p.gate_holds(w, 34));
    assert(p.gate_holds(w, 35));
    assert(p.gate_holds(w, 36));
    assert(p.gate_holds(w, 37));
    assert(p.gate_holds(w, 38));
    assert(p.gate_holds(w, 39));
    assert(p.gate_holds(w, 40));
    assert(p.gate_holds(w, 41));
    assert(p.gate_holds(w, 42));
    assert(p.gate_holds(w, 43));
    assert(p.gate_holds(w, 44));
    assert(p.gate_holds(w, 45));
    assert(p.gate_holds(w, 46));
    assert(p.gate_holds(w, 47));
    assert(p.gate_holds(w, 48));
    assert(p.gate_holds(w, 49));
    assert(p.gate_holds(w, 50));
    assert(p.gate_holds(w, 51));
    assert(p.gate_holds(w, 52));
    assert(p.gate_holds(w, 53));
    assert(p.gate_holds(w, 54));
    assert(p.gate_holds(w, 55));
    assert(p.gate_holds(w, 56));
    assert(p.gate_holds(w, 57));
    assert(p.gate_holds(w, 58));
    assert(p.gate_holds(w, 59));
    assert(p.gate_holds(w, 60));
    assert(p.gate_holds(w, 61));
    assert(p.gate_holds(w, 62));
    assert(p.gate_holds(w, 63));
    assert(p.gate_holds(w, 64));
    assert(p.gate_holds(w, 65));
    assert(p.gate_holds(w, 66));
    assert(p.gate_holds(w, 67));
    assert(p.gate_holds(w, 68));
    assert(p.gate_holds(w, 69));
    assert(p.gate_holds(w, 70));
    assert(p.gate_holds(w, 71));
    assert(p.gate_holds(w, 72));
    assert(p.gate_holds(w, 73));
    assert(p.gate_holds(w, 74));
    assert(p.gate_holds(w, 75));
    assert(p.gate_holds(w, 76));
    assert(p.gate_holds(w, 77));
    assert(p.gate_holds(w, 78));
    assert(p.gate_holds(w, 79));
    assert(p.gate_holds(w, 80));
    assert(p.gate_holds(w, 81));
    assert(p.gate_holds(w, 82));
    assert(p.gate_holds(w, 83));
    assert(p.gate_holds(w, 84));
    assert(p.gate_holds(w, 85));
    assert(p.gate_holds(w, 86));
    assert(p.gate_holds(w, 87));
    assert(p.gate_holds(w, 88));
    assert(p.gate_holds(w, 89));
    assert(p.gate_holds(w, 90));
    assert(p.gate_holds(w, 91));
    assert(p.gate_holds(w, 92));
    assert(p.gate_holds(w, 93));
    assert(p.gate_holds(w, 94));
    assert(p.gate_holds(w, 95));
    assert(p.gate_holds(w, 96));
    assert(p.gate_holds(w, 97));
    assert(p.gate_holds(w, 98));
    assert(p.gate_holds(w, 99));
    assert(p.gate_holds(w, 100));
    assert(p.gate_holds(w, 101));
    assert(p.gate_holds(w, 102));
    assert(p.gate_holds(w, 103));
    assert(p.gate_holds(w, 104));
    assert(p.gate_holds(w, 105));
    assert(p.gate_holds(w, 106));
    assert(p.gate_holds(w, 107));
    assert(p.gate_holds(w, 108));
    assert(p.gate_holds(w, 109));
    assert(p.gate_holds(w, 110));
    assert(p.gate_holds(w, 111));
    assert(p.gate_holds(w, 112));
    assert(p.gate_holds(w, 113));
    assert(p.gate_holds(w, 114));
    assert(p.gate_holds(w, 115));
    assert(p.gate_holds(w, 116));
    assert(p.gate_holds(w, 117));
    assert(p.gate_holds(w, 118));
    assert(o[0] == w[116]);
    assert(o[1] == w[118]);
    assert(o[2] == w[119]);
    assert(o[3] == w[120]);
    assert(o[4] == w[121]);
    assert(o[5] == w[123]);
    assert(o[6] == w[125]);
    assert(o[7] == w[126]);
    let w0 = w[0];
    let w1 = w[1];
    let w2 = w[2];
    let w3 = w[3];
    let w4 = w[4];
    let w5 = w[5];
    let w6 = w[6];
    let w7 = w[7];
    let w8 = w[8];
    let w9 = w[9];
    let w10 = w[10];
    let w11 = w[11];
    let w12 = w[12];
    let w13 = w[13];
    let w14 = w[14];
    let w15 = w[15];
    let w16 = w[16];
    let w17 = w[17];
    let w18 = w[18];
    let w19 = w[19];
    let w20 = w[20];
    let w21 = w[21];
    let w22 = w[22];
    let w23 = w[23];
    let w24 = w[24];
    let w25 = w[25];
    let w26 = w[26];
    let w27 = w[27];
    let w28 = w[28];
    let w29 = w[29];
    let w30 = w[30];
    let w31 = w[31];
    let w32 = w[32];
    let w33 = w[33];
    let w34 = w[34];
    let w35 = w[35];
    let w36 = w[36];
    let w37 = w[37];
    let w38 = w[38];
    let w39 = w[39];
    let w40 = w[40];
    let w41 = w[41];
    let w42 = w[42];
    let w43 = w[43];
    let w44 = w[44];
    let w45 = w[45];
    let w46 = w[46];
    let w47 = w[47];
    let w48 = w[48];
    let w49 = w[49];
    let w50 = w[50];
    let w51 = w[51];
    let w52 = w[52];
    let w53 = w[53];
    let w54 = w[54];
    let w55 = w[55];
    let w56 = w[56];
    let w57 = w[57];
    let w58 = w[58];
    let w59 = w[59];
    let w60 = w[60];
    let w61 = w[61];
    let w62 = w[62];
    let w63 = w[63];
    let w64 = w[64];
    let w65 = w[65];
    let w66 = w[66];
    let w67 = w[67];
    let w68 = w[68];
    let w69 = w[69];
    let w70 = w[70];
    let w71 = w[71];
    let w72 = w[72];
    let w73 = w[73];
    let w74 = w[74];
    let w75 = w[75];
    let w76 = w[76];
    let w77 = w[77];
    let w78 = w[78];
    let w79 = w[79];
    let w80 = w[80];
    let w81 = w[81];
    let w82 = w[82];
    let w83 = w[83];
    let w84 = w[84];
    let w85 = w[85];
    let w86 = w[86];
    let w87 = w[87];
    let w88 = w[88];
    let w89 = w[89];
    let w90 = w[90];
    let w91 = w[91];
    let w92 = w[92];
    let w93 = w[93];
    let w94 = w[94];
    let w95 = w[95];
    let w96 = w[96];
    let w97 = w[97];
    let w98 = w[98];
    let w99 = w[99];
    let w100 = w[100];
    let w101 = w[101];
    let w102 = w[102];
    let w103 = w[103];
    let w104 = w[104];
    let w105 = w[105];
    let w106 = w[106];
    let w107 = w[107];
    let w108 = w[108];
    let w109 = w[109];
    let w110 = w[110];
    let w111 = w[111];
    let w112 = w[112];
    let w113 = w[113];
    let w114 = w[114];
    let w115 = w[115];
    let w116 = w[116];
    let w117 = w[117];
    let w118 = w[118];
    let w119 = w[119];
    let w120 = w[120];
    let w121 = w[121];
    let w122 = w[122];
    let w123 = w[123];
    let w124 = w[124];
    let w125 = w[125];
    let w126 = w[126];
    assert(x >> 6u8 < 4u8) by (bit_vector);
    if x >> 6u8 == 0u8 {
        assert(pack8(w116, w118, w119, w120, w121, w123, w125, w126) == sbox_table(x)) by (bit_vector)
            requires
                x >> 6u8 == 0u8,
                w0 == bit(x, 0),
                w1 == bit(x, 1),
                w2 == bit(x, 2),
                w3 == bit(x, 3),
                w4 == bit(x, 4),
                w5 == bit(x, 5),
                w6 == bit(x, 6),
                w7 == bit(x, 7),
                w8 == (w4 != w2),
                w9 == (w7 != w1),
                w10 == (w7 != w4),
                w11 == (w7 != w2),
                w12 == (w6 != w5),
                w13 == (w12 != w0),
                w14 == (w13 != w4),
                w15 == (w9 != w8),
                w16 == (w13 != w7),
                w17 == (w13 != w1),
                w18 == (w17 != w11),
                w19 == (w3 != w15),
                w20 == (w19 != w2),
                w21 == (w19 != w6),
                w22 == (w20 != w0),
                w23 == (w20 != w12),
                w24 == (w21 != w10),
                w25 == (w0 != w24),
                w26 == (w23 != w24),
                w27 == (w23 != w11),
                w28 == (w12 != w24),
                w29 == (w9 != w28),
                w30 == (w7 != w28),
                w31 == (w15 && w20),
                w32 == (w18 && w22),
                w33 == (w32 != w31),
                w34 == (w14 && w0),
                w35 == (w34 != w31),
                w36 == (w9 && w28),
                w37 == (w17 && w13),
                w38 == (w37 != w36),
                w39 == (w16 && w25),
                w40 == (w39 != w36),
                w41 == (w10 && w24),
                w42 == (w8 && w26),
                w43 == (w42 != w41),
                w44 == (w11 && w23),
                w45 == (w44 != w41),
                w46 == (w33 != w43),
                w47 == (w35 != w45),
                w48 == (w38 != w43),
                w49 == (w40 != w45),
                w50 == (w46 != w21),
                w51 == (w47 != w27),
                w52 == (w48 != w29),
                w53 == (w49 != w30),
                w54 == (w50 != w51),
                w55 == (w50 && w52),
                w56 == (w53 != w55),
                w57 == (w54 && w56),
                w58 == (w57 != w51),
                w59 == (w52 != w53),
                w60 == (w51 != w55),
                w61 == (w60 && w59),
                w62 == (w61 != w53),
                w63 == (w52 != w62),
                w64 == (w56 != w62),
                w65 == (w53 && w64),
                w66 == (w65 != w63),
                w67 == (w56 != w65),
                w68 == (w58 && w67),
                w69 == (w54 != w68),
                w70 == (w69 != w66),
                w71 == (w58 != w62),
                w72 == (w58 != w69),
                w73 == (w62 != w66),
                w74 == (w71 != w70),
                w75 == (w73 && w20),
                w76 == (w66 && w22),
                w77 == (w62 && w0),
                w78 == (w72 && w28),
                w79 == (w69 && w13),
                w80 == (w58 && w25),
                w81 == (w71 && w24),
                w82 == (w74 && w26),
                w83 == (w70 && w23),
                w84 == (w73 && w15),
                w85 == (w66 && w18),
                w86 == (w62 && w14),
                w87 == (w72 && w9),
                w88 == (w69 && w17),
                w89 == (w58 && w16),
                w90 == (w71 && w10),
                w91 == (w74 && w8),
                w92 == (w70 && w11),
                w93 == (w90 != w91),
                w94 == (w85 != w86),
                w95 == (w80 != w88),
                w96 == (w84 != w85),
                w97 == (w77 != w87),
                w98 == (w77 != w80),
                w99 == (w82 != w83),
                w100 == (w75 != w78),
                w101 == (w81 != w82),
                w102 == (w91 != w92),
                w103 == (w87 != w95),
                w104 == (w97 != w100),
                w105 == (w79 != w93),
                w106 == (w78 != w101),
                w107 == (w93 != w104),
                w108 == (w89 != w104),
                w109 == (w99 != w105),
                w110 == (w96 != w105),
                w111 == (w79 != w106),
                w112 == (w108 != w109),
                w113 == (w76 != w110),
                w114 == (w111 != w112),
                w115 == (w95 != w107),
                w116 == (!w115),
                w117 == (w103 != w109),
                w118 == (!w117),
                w119 == (w94 != w112),
                w120 == (w98 != w113),
                w121 == (w100 != w113),
                w122 == (w102 != w114),
                w123 == (!w122),
                w124 == (w111 != w121),
                w125 == (!w124),
                w126 == (w106 != w110),
        ;
    }
    if x >> 6u8 == 1u8 {
        assert(pack8(w116, w118, w119, w120, w121, w123, w125, w126) == sbox_table(x)) by (bit_vector)
            requires
                x >> 6u8 == 1u8,
                w0 == bit(x, 0),
                w1 == bit(x, 1),
                w2 == bit(x, 2),
                w3 == bit(x, 3),
                w4 == bit(x, 4),
                w5 == bit(x, 5),
                w6 == bit(x, 6),
                w7 == bit(x, 7),
                w8 == (w4 != w2),
                w9 == (w7 != w1),
                w10 == (w7 != w4),
                w11 == (w7 != w2),
                w12 == (w6 != w5),
                w13 == (w12 != w0),
                w14 == (w13 != w4),
                w15 == (w9 != w8),
                w16 == (w13 != w7),
                w17 == (w13 != w1),
                w18 == (w17 != w11),
                w19 == (w3 != w15),
                w20 == (w19 != w2),
                w21 == (w19 != w6),
                w22 == (w20 != w0),
                w23 == (w20 != w12),
                w24 == (w21 != w10),
                w25 == (w0 != w24),
                w26 == (w23 != w24),
                w27 == (w23 != w11),
                w28 == (w12 != w24),
                w29 == (w9 != w28),
                w30 == (w7 != w28),
                w31 == (w15 && w20),
                w32 == (w18 && w22),
                w33 == (w32 != w31),
                w34 == (w14 && w0),
                w35 == (w34 != w31),
                w36 == (w9 && w28),
                w37 == (w17 && w13),
                w38 == (w37 != w36),
                w39 == (w16 && w25),
                w40 == (w39 != w36),
                w41 == (w10 && w24),
                w42 == (w8 && w26),
                w43 == (w42 != w41),
                w44 == (w11 && w23),
                w45 == (w44 != w41),
                w46 == (w33 != w43),
                w47 == (w35 != w45),
                w48 == (w38 != w43),
                w49 == (w40 != w45),
                w50 == (w46 != w21),
                w51 == (w47 != w27),
                w52 == (w48 != w29),
                w53 == (w49 != w30),
                w54 == (w50 != w51),
                w55 == (w50 && w52),
                w56 == (w53 != w55),
                w57 == (w54 && w56),
                w58 == (w57 != w51),
                w59 == (w52 != w53),
                w60 == (w51 != w55),
                w61 == (w60 && w59),
                w62 == (w61 != w53),
                w63 == (w52 != w62),
                w64 == (w56 != w62),
                w65 == (w53 && w64),
                w66 == (w65 != w63),
                w67 == (w56 != w65),
                w68 == (w58 && w67),
                w69 == (w54 != w68),
                w70 == (w69 != w66),
                w71 == (w58 != w62),
                w72 == (w58 != w69),
                w73 == (w62 != w66),
                w74 == (w71 != w70),
                w75 == (w73 && w20),
                w76 == (w66 && w22),
                w77 == (w62 && w0),
                w78 == (w72 && w28),
                w79 == (w69 && w13),
                w80 == (w58 && w25),
                w81 == (w71 && w24),
                w82 == (w74 && w26),
                w83 == (w70 && w23),
                w84 == (w73 && w15),
                w85 == (w66 && w18),
                w86 == (w62 && w14),
                w87 == (w72 && w9),
                w88 == (w69 && w17),
                w89 == (w58 && w16),
                w90 == (w71 && w10),
                w91 == (w74 && w8),
                w92 == (w70 && w11),
                w93 == (w90 != w91),
                w94 == (w85 != w86),
                w95 == (w80 != w88),
                w96 == (w84 != w85),
                w97 == (w77 != w87),
                w98 == (w77 != w80),
                w99 == (w82 != w83),
                w100 == (w75 != w78),
                w101 == (w81 != w82),
                w102 == (w91 != w92),
                w103 == (w87 != w95),
                w104 == (w97 != w100),
                w105 == (w79 != w93),
                w106 == (w78 != w101),
                w107 == (w93 != w104),
                w108 == (w89 != w104),
                w109 == (w99 != w105),
                w110 == (w96 != w105),
                w111 == (w79 != w106),
                w112 == (w108 != w109),
                w113 == (w76 != w110),
                w114 == (w111 != w112),
                w115 == (w95 != w107),
                w116 == (!w115),
                w117 == (w103 != w109),
                w118 == (!w117),
                w119 == (w94 != w112),
                w120 == (w98 != w113),
                w121 == (w100 != w113),
                w122 == (w102 != w114),
                w123 == (!w122),
                w124 == (w111 != w121),
                w125 == (!w124),
                w126 == (w106 != w110),
        ;
    }
    if x >> 6u8 == 2u8 {
        assert(pack8(w116, w118, w119, w120, w121, w123, w125, w126) == sbox_table(x)) by (bit_vector)
            requires
                x >> 6u8 == 2u8,
                w0 == bit(x, 0),
                w1 == bit(x, 1),
                w2 == bit(x, 2),
                w3 == bit(x, 3),
                w4 == bit(x, 4),
                w5 == bit(x, 5),
                w6 == bit(x, 6),
                w7 == bit(x, 7),
                w8 == (w4 != w2),
                w9 == (w7 != w1),
                w10 == (w7 != w4),
                w11 == (w7 != w2),
                w12 == (w6 != w5),
                w13 == (w12 != w0),
                w14 == (w13 != w4),
                w15 == (w9 != w8),
                w16 == (w13 != w7),
                w17 == (w13 != w1),
                w18 == (w17 != w11),
                w19 == (w3 != w15),
                w20 == (w19 != w2),
                w21 == (w19 != w6),
                w22 == (w20 != w0),
                w23 == (w20 != w12),
                w24 == (w21 != w10),
                w25 == (w0 != w24),
                w26 == (w23 != w24),
                w27 == (w23 != w11),
                w28 == (w12 != w24),
                w29 == (w9 != w28),
                w30 == (w7 != w28),
                w31 == (w15 && w20),
                w32 == (w18 && w22),
                w33 == (w32 != w31),
                w34 == (w14 && w0),
                w35 == (w34 != w31),
                w36 == (w9 && w28),
                w37 == (w17 && w13),
                w38 == (w37 != w36),
                w39 == (w16 && w25),
                w40 == (w39 != w36),
                w41 == (w10 && w24),
                w42 == (w8 && w26),
                w43 == (w42 != w41),
                w44 == (w11 && w23),
                w45 == (w44 != w41),
                w46 == (w33 != w43),
                w47 == (w35 != w45),
                w48 == (w38 != w43),
                w49 == (w40 != w45),
                w50 == (w46 != w21),
                w51 == (w47 != w27),
                w52 == (w48 != w29),
                w53 == (w49 != w30),
                w54 == (w50 != w51),
                w55 == (w50 && w52),
                w56 == (w53 != w55),
                w57 == (w54 && w56),
                w58 == (w57 != w51),
                w59 == (w52 != w53),
                w60 == (w51 != w55),
                w61 == (w60 && w59),
                w62 == (w61 != w53),
                w63 == (w52 != w62),
                w64 == (w56 != w62),
                w65 == (w53 && w64),
                w66 == (w65 != w63),
                w67 == (w56 != w65),
                w68 == (w58 && w67),
                w69 == (w54 != w68),
                w70 == (w69 != w66),
                w71 == (w58 != w62),
                w72 == (w58 != w69),
                w73 == (w62 != w66),
                w74 == (w71 != w70),
                w75 == (w73 && w20),
                w76 == (w66 && w22),
                w77 == (w62 && w0),
                w78 == (w72 && w28),
                w79 == (w69 && w13),
                w80 == (w58 && w25),
                w81 == (w71 && w24),
                w82 == (w74 && w26),
                w83 == (w70 && w23),
                w84 == (w73 && w15),
                w85 == (w66 && w18),
                w86 == (w62 && w14),
                w87 == (w72 && w9),
                w88 == (w69 && w17),
                w89 == (w58 && w16),
                w90 == (w71 && w10),
                w91 == (w74 && w8),
                w92 == (w70 && w11),
                w93 == (w90 != w91),
                w94 == (w85 != w86),
                w95 == (w80 != w88),
                w96 == (w84 != w85),
                w97 == (w77 != w87),
                w98 == (w77 != w80),
                w99 == (w82 != w83),
                w100 == (w75 != w78),
                w101 == (w81 != w82),
                w102 == (w91 != w92),
                w103 == (w87 != w95),
                w104 == (w97 != w100),
                w105 == (w79 != w93),
                w106 == (w78 != w101),
                w107 == (w93 != w104),
                w108 == (w89 != w104),
                w109 == (w99 != w105),
                w110 == (w96 != w105),
                w111 == (w79 != w106),
                w112 == (w108 != w109),
                w113 == (w76 != w110),
                w114 == (w111 != w112),
                w115 == (w95 != w107),
                w116 == (!w115),
                w117 == (w103 != w109),
                w118 == (!w117),
                w119 == (w94 != w112),
                w120 == (w98 != w113),
                w121 == (w100 != w113),
                w122 == (w102 != w114),
                w123 == (!w122),
                w124 == (w111 != w121),
                w125 == (!w124),
                w126 == (w106 != w110),
        ;
    }
    if x >> 6u8 == 3u8 {
        assert(pack8(w116, w118, w119, w120, w121, w123, w125, w126) == sbox_table(x)) by (bit_vector)
            requires
                x >> 6u8 == 3u8,
                w0 == bit(x, 0),
                w1 == bit(x, 1),
                w2 == bit(x, 2),
                w3 == bit(x, 3),
                w4 == bit(x, 4),
                w5 == bit(x, 5),
                w6 == bit(x, 6),
                w7 == bit(x, 7),
                w8 == (w4 != w2),
                w9 == (w7 != w1),
                w10 == (w7 != w4),
                w11 == (w7 != w2),
                w12 == (w6 != w5),
                w13 == (w12 != w0),
                w14 == (w13 != w4),
                w15 == (w9 != w8),
                w16 == (w13 != w7),
                w17 == (w13 != w1),
                w18 == (w17 != w11),
                w19 == (w3 != w15),
                w20 == (w19 != w2),
                w21 == (w19 != w6),
                w22 == (w20 != w0),
                w23 == (w20 != w12),
                w24 == (w21 != w10),
                w25 == (w0 != w24),
                w26 == (w23 != w24),
                w27 == (w23 != w11),
                w28 == (w12 != w24),
                w29 == (w9 != w28),
                w30 == (w7 != w28),
                w31 == (w15 && w20),
                w32 == (w18 && w22),
                w33 == (w32 != w31),
                w34 == (w14 && w0),
                w35 == (w34 != w31),
                w36 == (w9 && w28),
                w37 == (w17 && w13),
                w38 == (w37 != w36),
                w39 == (w16 && w25),
                w40 == (w39 != w36),
                w41 == (w10 && w24),
                w42 == (w8 && w26),
                w43 == (w42 != w41),
                w44 == (w11 && w23),
                w45 == (w44 != w41),
                w46 == (w33 != w43),
                w47 == (w35 != w45),
                w48 == (w38 != w43),
                w49 == (w40 != w45),
                w50 == (w46 != w21),
                w51 == (w47 != w27),
                w52 == (w48 != w29),
                w53 == (w49 != w30),
                w54 == (w50 != w51),
                w55 == (w50 && w52),
                w56 == (w53 != w55),
                w57 == (w54 && w56),
                w58 == (w57 != w51),
                w59 == (w52 != w53),
                w60 == (w51 != w55),
                w61 == (w60 && w59),
                w62 == (w61 != w53),
                w63 == (w52 != w62),
                w64 == (w56 != w62),
                w65 == (w53 && w64),
                w66 == (w65 != w63),
                w67 == (w56 != w65),
                w68 == (w58 && w67),
                w69 == (w54 != w68),
                w70 == (w69 != w66),
                w71 == (w58 != w62),
                w72 == (w58 != w69),
                w73 == (w62 != w66),
                w74 == (w71 != w70),
                w75 == (w73 && w20),
                w76 == (w66 && w22),
                w77 == (w62 && w0),
                w78 == (w72 && w28),
                w79 == (w69 && w13),
                w80 == (w58 && w25),
                w81 == (w71 && w24),
                w82 == (w74 && w26),
                w83 == (w70 && w23),
                w84 == (w73 && w15),
                w85 == (w66 && w18),
                w86 == (w62 && w14),
                w87 == (w72 && w9),
                w88 == (w69 && w17),
                w89 == (w58 && w16),
                w90 == (w71 && w10),
                w91 == (w74 && w8),
                w92 == (w70 && w11),
                w93 == (w90 != w91),
                w94 == (w85 != w86),
                w95 == (w80 != w88),
                w96 == (w84 != w85),
                w97 == (w77 != w87),
                w98 == (w77 != w80),
                w99 == (w82 != w83),
                w100 == (w75 != w78),
                w101 == (w81 != w82),
                w102 == (w91 != w92),
                w103 == (w87 != w95),
                w104 == (w97 != w100),
                w105 == (w79 != w93),
                w106 == (w78 != w101),
                w107 == (w93 != w104),
                w108 == (w89 != w104),
                w109 == (w99 != w105),
                w110 == (w96 != w105),
                w111 == (w79 != w106),
                w112 == (w108 != w109),
                w113 == (w76 != w110),
                w114 == (w111 != w112),
                w115 == (w95 != w107),
                w116 == (!w115),
                w117 == (w103 != w109),
                w118 == (!w117),
                w119 == (w94 != w112),
                w120 == (w98 != w113),
                w121 == (w100 != w113),
                w122 == (w102 != w114),
                w123 == (!w122),
                w124 == (w111 != w121),
                w125 == (!w124),
                w126 == (w106 != w110),
        ;
    }
}

pub const INV_SBOX_GATES: usize = 125;

/// Instruction `k` of the inv sbox program.
pub open spec fn inv_sbox_gate(k: int) -> Gate {
    if k == 0 {
        xor_gate(7, 4)
    } else if k == 1 {
        xor_gate(6, 4)
    } else if k == 2 {
        not_gate(9)
    } else if k == 3 {
        xor_gate(7, 10)
    } else if k == 4 {
        xor_gate(1, 0)
    } else if k == 5 {
        xor_gate(10, 12)
    } else if k == 6 {
        xor_gate(5, 13)
    } else if k == 7 {
        not_gate(14)
    } else if k == 8 {
        xor_gate(4, 3)
    } else if k == 9 {
        xor_gate(0, 16)
    } else if k == 10 {
        not_gate(17)
    } else if k == 11 {
        xor_gate(13, 16)
    } else if k == 12 {
        xor_gate(7, 5)
    } else if k == 13 {
        not_gate(20)
    } else if k == 14 {
        xor_gate(2, 21)
    } else if k == 15 {
        xor_gate(8, 10)
    } else if k == 16 {
        xor_gate(13, 19)
    } else if k == 17 {
        xor_gate(11, 18)
    } else if k == 18 {
        xor_gate(22, 15)
    } else if k == 19 {
        xor_gate(8, 13)
    } else if k == 20 {
        xor_gate(10, 19)
    } else if k == 21 {
        xor_gate(24, 23)
    } else if k == 22 {
        xor_gate(11, 22)
    } else if k == 23 {
        xor_gate(18, 15)
    } else if k == 24 {
        xor_gate(26, 25)
    } else if k == 25 {
        xor_gate(24, 26)
    } else if k == 26 {
        xor_gate(28, 31)
    } else if k == 27 {
        xor_gate(19, 15)
    } else if k == 28 {
        xor_gate(23, 25)
    } else if k == 29 {
        and_gate(27, 30)
    } else if k == 30 {
        and_gate(8, 11)
    } else if k == 31 {
        xor_gate(33, 37)
    } else if k == 32 {
        and_gate(13, 22)
    } else if k == 33 {
        xor_gate(40, 37)
    } else if k == 34 {
        and_gate(28, 31)
    } else if k == 35 {
        and_gate(10, 18)
    } else if k == 36 {
        xor_gate(34, 42)
    } else if k == 37 {
        and_gate(19, 15)
    } else if k == 38 {
        xor_gate(45, 42)
    } else if k == 39 {
        and_gate(24, 26)
    } else if k == 40 {
        and_gate(29, 32)
    } else if k == 41 {
        xor_gate(48, 47)
    } else if k == 42 {
        and_gate(23, 25)
    } else if k == 43 {
        xor_gate(50, 47)
    } else if k == 44 {
        xor_gate(39, 38)
    } else if k == 45 {
        xor_gate(41, 36)
    } else if k == 46 {
        xor_gate(44, 43)
    } else if k == 47 {
        xor_gate(46, 51)
    } else if k == 48 {
        xor_gate(52, 49)
    } else if k == 49 {
        xor_gate(53, 51)
    } else if k == 50 {
        xor_gate(54, 49)
    } else if k == 51 {
        xor_gate(55, 35)
    } else if k == 52 {
        xor_gate(58, 59)
    } else if k == 53 {
        and_gate(58, 56)
    } else if k == 54 {
        xor_gate(57, 61)
    } else if k == 55 {
        xor_gate(56, 57)
    } else if k == 56 {
        xor_gate(59, 61)
    } else if k == 57 {
        and_gate(64, 63)
    } else if k == 58 {
        and_gate(62, 60)
    } else if k == 59 {
        xor_gate(59, 66)
    } else if k == 60 {
        xor_gate(57, 65)
    } else if k == 61 {
        and_gate(56, 59)
    } else if k == 62 {
        and_gate(63, 69)
    } else if k == 63 {
        xor_gate(63, 61)
    } else if k == 64 {
        xor_gate(70, 71)
    } else if k == 65 {
        and_gate(57, 58)
    } else if k == 66 {
        and_gate(60, 73)
    } else if k == 67 {
        xor_gate(60, 61)
    } else if k == 68 {
        xor_gate(74, 75)
    } else if k == 69 {
        xor_gate(72, 76)
    } else if k == 70 {
        xor_gate(68, 67)
    } else if k == 71 {
        xor_gate(68, 72)
    } else if k == 72 {
        xor_gate(67, 76)
    } else if k == 73 {
        xor_gate(78, 77)
    } else if k == 74 {
        and_gate(80, 30)
    } else if k == 75 {
        and_gate(76, 11)
    } else if k == 76 {
        and_gate(67, 22)
    } else if k == 77 {
        and_gate(79, 31)
    } else if k == 78 {
        and_gate(72, 18)
    } else if k == 79 {
        and_gate(68, 15)
    } else if k == 80 {
        and_gate(78, 26)
    } else if k == 81 {
        and_gate(81, 32)
    } else if k == 82 {
        and_gate(77, 25)
    } else if k == 83 {
        and_gate(80, 27)
    } else if k == 84 {
        and_gate(76, 8)
    } else if k == 85 {
        and_gate(67, 13)
    } else if k == 86 {
        and_gate(79, 28)
    } else if k == 87 {
        and_gate(72, 10)
    } else if k == 88 {
        and_gate(68, 19)
    } else if k == 89 {
        and_gate(78, 24)
    } else if k == 90 {
        and_gate(81, 29)
    } else if k == 91 {
        and_gate(77, 23)
    } else if k == 92 {
        xor_gate(83, 82)
    } else if k == 93 {
        xor_gate(84, 82)
    } else if k == 94 {
        xor_gate(86, 85)
    } else if k == 95 {
        xor_gate(87, 85)
    } else if k == 96 {
        xor_gate(89, 88)
    } else if k == 97 {
        xor_gate(90, 88)
    } else if k == 98 {
        xor_gate(100, 104)
    } else if k == 99 {
        xor_gate(101, 105)
    } else if k == 100 {
        xor_gate(102, 104)
    } else if k == 101 {
        xor_gate(103, 105)
    } else if k == 102 {
        xor_gate(92, 91)
    } else if k == 103 {
        xor_gate(93, 91)
    } else if k == 104 {
        xor_gate(95, 94)
    } else if k == 105 {
        xor_gate(96, 94)
    } else if k == 106 {
        xor_gate(98, 97)
    } else if k == 107 {
        xor_gate(99, 97)
    } else if k == 108 {
        xor_gate(110, 114)
    } else if k == 109 {
        xor_gate(111, 115)
    } else if k == 110 {
        xor_gate(112, 114)
    } else if k == 111 {
        xor_gate(113, 115)
    } else if k == 112 {
        xor_gate(107, 118)
    } else if k == 113 {
        xor_gate(108, 118)
    } else if k == 114 {
        xor_gate(109, 118)
    } else if k == 115 {
        xor_gate(106, 108)
    } else if k == 116 {
        xor_gate(122, 123)
    } else if k == 117 {
        xor_gate(116, 119)
    } else if k == 118 {
        xor_gate(123, 125)
    } else if k == 119 {
        xor_gate(120, 126)
    } else if k == 120 {
        xor_gate(107, 117)
    } else if k == 121 {
        xor_gate(126, 128)
    } else if k == 122 {
        xor_gate(106, 116)
    } else if k == 123 {
        xor_gate(124, 128)
    } else {
        xor_gate(130, 131)
    }
}

/// Output `i` of the inv sbox program.
pub open spec fn inv_sbox_output(i: int) -> usize {
    if i == 0 {
        117
    } else if i == 1 {
        121
    } else if i == 2 {
        124
    } else if i == 3 {
        132
    } else if i == 4 {
        120
    } else if i == 5 {
        129
    } else if i == 6 {
        127
    } else {
        122
    }
}

fn inv_sbox_gate_at(k: usize) -> (g: Gate)
    requires
        k < INV_SBOX_GATES,
    ensures
        g == inv_sbox_gate(k as int),
{
    match k {
        0 => xor(7, 4),  // y0 = u0 ^ u3
        1 => xor(6, 4),  // y2n = u1 ^ u3
        2 => not(9),  // y2 = !y2n
        3 => xor(7, 10),  // y4 = u0 ^ y2
        4 => xor(1, 0),  // rtl0 = u6 ^ u7
        5 => xor(10, 12),  // y1 = y2 ^ rtl0
        6 => xor(5, 13),  // y7n = u2 ^ y1
        7 => not(14),  // y7 = !y7n
        8 => xor(4, 3),  // rtl1 = u3 ^ u4
        9 => xor(0, 16),  // y6n = u7 ^ rtl1
        10 => not(17),  // y6 = !y6n
        11 => xor(13, 16),  // y3 = y1 ^ rtl1
        12 => xor(7, 5),  // rtl2n = u0 ^ u2
        13 => not(20),  // rtl2 = !rtl2n
        14 => xor(2, 21),  // y5 = u5 ^ rtl2
        15 => xor(8, 10),  // sa1 = y0 ^ y2
        16 => xor(13, 19),  // sa0 = y1 ^ y3
        17 => xor(11, 18),  // sb1 = y4 ^ y6
        18 => xor(22, 15),  // sb0 = y5 ^ y7
        19 => xor(8, 13),  // ah = y0 ^ y1
        20 => xor(10, 19),  // al = y2 ^ y3
        21 => xor(24, 23),  // aa = sa0 ^ sa1
        22 => xor(11, 22),  // bh = y4 ^ y5
        23 => xor(18, 15),  // bl = y6 ^ y7
        24 => xor(26, 25),  // bb = sb0 ^ sb1
        25 => xor(24, 26),  // ab20 = sa0 ^ sb0
        26 => xor(28, 31),  // ab22 = al ^ bl
        27 => xor(19, 15),  // ab23 = y3 ^ y7
        28 => xor(23, 25),  // ab21 = sa1 ^ sb1
        29 => and(27, 30),  // abcd1 = ah & bh
        30 => and(8, 11),  // rr1 = y0 & y4
        31 => xor(33, 37),  // ph11 = ab20 ^ abcd1
        32 => and(13, 22),  // t01 = y1 & y5
        33 => xor(40, 37),  // ph01 = t01 ^ abcd1
        34 => and(28, 31),  // abcd2 = al & bl
        35 => and(10, 18),  // r1 = y2 & y6
        36 => xor(34, 42),  // pl11 = ab22 ^ abcd2
        37 => and(19, 15),  // r2 = y3 & y7
        38 => xor(45, 42),  // pl01 = r2 ^ abcd2
        39 => and(24, 26),  // r3 = sa0 & sb0
        40 => and(29, 32),  // vr1 = aa & bb
        41 => xor(48, 47),  // pr1 = vr1 ^ r3
        42 => and(23, 25),  // wr1 = sa1 & sb1
        43 => xor(50, 47),  // qr1 = wr1 ^ r3
        44 => xor(39, 38),  // ab0 = ph11 ^ rr1
        45 => xor(41, 36),  // ab1 = ph01 ^ ab21
        46 => xor(44, 43),  // ab2 = pl11 ^ r1
        47 => xor(46, 51),  // ab3 = pl01 ^ qr1
        48 => xor(52, 49),  // cp1 = ab0 ^ pr1
        49 => xor(53, 51),  // cp2 = ab1 ^ qr1
        50 => xor(54, 49),  // cp3 = ab2 ^ pr1
        51 => xor(55, 35),  // cp4 = ab3 ^ ab23
        52 => xor(58, 59),  // tinv1 = cp3 ^ cp4
        53 => and(58, 56),  // tinv2 = cp3 & cp1
        54 => xor(57, 61),  // tinv3 = cp2 ^ tinv2
        55 => xor(56, 57),  // tinv4 = cp1 ^ cp2
        56 => xor(59, 61),  // tinv5 = cp4 ^ tinv2
        57 => and(64, 63),  // tinv6 = tinv5 & tinv4
        58 => and(62, 60),  // tinv7 = tinv3 & tinv1
        59 => xor(59, 66),  // d2 = cp4 ^ tinv7
        60 => xor(57, 65),  // d0 = cp2 ^ tinv6
        61 => and(56, 59),  // tinv8 = cp1 & cp4
        62 => and(63, 69),  // tinv9 = tinv4 & tinv8
        63 => xor(63, 61),  // tinv10 = tinv4 ^ tinv2
        64 => xor(70, 71),  // d1 = tinv9 ^ tinv10
        65 => and(57, 58),  // tinv11 = cp2 & cp3
        66 => and(60, 73),  // tinv12 = tinv1 & tinv11
        67 => xor(60, 61),  // tinv13 = tinv1 ^ tinv2
        68 => xor(74, 75),  // d3 = tinv12 ^ tinv13
        69 => xor(72, 76),  // sd1 = d1 ^ d3
        70 => xor(68, 67),  // sd0 = d0 ^ d2
        71 => xor(68, 72),  // dl = d0 ^ d1
        72 => xor(67, 76),  // dh = d2 ^ d3
        73 => xor(78, 77),  // dd = sd0 ^ sd1
        74 => and(80, 30),  // abcd3 = dh & bh
        75 => and(76, 11),  // rr2 = d3 & y4
        76 => and(67, 22),  // t02 = d2 & y5
        77 => and(79, 31),  // abcd4 = dl & bl
        78 => and(72, 18),  // r4 = d1 & y6
        79 => and(68, 15),  // r5 = d0 & y7
        80 => and(78, 26),  // r6 = sd0 & sb0
        81 => and(81, 32),  // vr2 = dd & bb
        82 => and(77, 25),  // wr2 = sd1 & sb1
        83 => and(80, 27),  // abcd5 = dh & ah
        84 => and(76, 8),  // r7 = d3 & y0
        85 => and(67, 13),  // r8 = d2 & y1
        86 => and(79, 28),  // abcd6 = dl & al
        87 => and(72, 10),  // r9 = d1 & y2
        88 => and(68, 19),  // r10 = d0 & y3
        89 => and(78, 24),  // r11 = sd0 & sa0
        90 => and(81, 29),  // vr3 = dd & aa
        91 => and(77, 23),  // wr3 = sd1 & sa1
        92 => xor(83, 82),  // ph12 = rr2 ^ abcd3
        93 => xor(84, 82),  // ph02 = t02 ^ abcd3
        94 => xor(86, 85),  // pl12 = r4 ^ abcd4
        95 => xor(87, 85),  // pl02 = r5 ^ abcd4
        96 => xor(89, 88),  // pr2 = vr2 ^ r6
        97 => xor(90, 88),  // qr2 = wr2 ^ r6
        98 => xor(100, 104),  // p0 = ph12 ^ pr2
        99 => xor(101, 105),  // p1 = ph02 ^ qr2
        100 => xor(102, 104),  // p2 = pl12 ^ pr2
        101 => xor(103, 105),  // p3 = pl02 ^ qr2
        102 => xor(92, 91),  // ph13 = r7 ^ abcd5
        103 => xor(93, 91),  // ph03 = r8 ^ abcd5
        104 => xor(95, 94),  // pl13 = r9 ^ abcd6
        105 => xor(96, 94),  // pl03 = r10 ^ abcd6
        106 => xor(98, 97),  // pr3 = vr3 ^ r11
        107 => xor(99, 97),  // qr3 = wr3 ^ r11
        108 => xor(110, 114),  // p4 = ph13 ^ pr3
        109 => xor(111, 115),  // s7 = ph03 ^ qr3
        110 => xor(112, 114),  // p6 = pl13 ^ pr3
        111 => xor(113, 115),  // p7 = pl03 ^ qr3
        112 => xor(107, 118),  // s3 = p1 ^ p6
        113 => xor(108, 118),  // s6 = p2 ^ p6
        114 => xor(109, 118),  // s0 = p3 ^ p6
        115 => xor(106, 108),  // x11 = p0 ^ p2
        116 => xor(122, 123),  // s5 = s0 ^ x11
        117 => xor(116, 119),  // x13 = p4 ^ p7
        118 => xor(123, 125),  // x14 = x11 ^ x13
        119 => xor(120, 126),  // s1 = s3 ^ x14
        120 => xor(107, 117),  // x16 = p1 ^ s7
        121 => xor(126, 128),  // s2 = x14 ^ x16
        122 => xor(106, 116),  // x18 = p0 ^ p4
        123 => xor(124, 128),  // x19 = s5 ^ x16
        _ => xor(130, 131),  // s4 = x18 ^ x19
    }
}

fn inv_sbox_output_at(i: usize) -> (o: usize)
    requires
        i < 8,
    ensures
        o == inv_sbox_output(i as int),
{
    match i {
        0 => 117,
        1 => 121,
        2 => 124,
        3 => 132,
        4 => 120,
        5 => 129,
        6 => 127,
        _ => 122,
    }
}

/// `p` is the inv sbox program.
pub open spec fn is_inv_sbox_program(p: &Program) -> bool {
    &&& p.n_inputs == 8
    &&& p.gates@.len() == INV_SBOX_GATES
    &&& p.outputs@.len() == 8
    &&& forall|k: int| 0 <= k < INV_SBOX_GATES ==> #[trigger] p.gates@[k] == inv_sbox_gate(k)
    &&& forall|i: int| 0 <= i < 8 ==> #[trigger] p.outputs@[i] == inv_sbox_output(i)
}

pub fn inv_sbox_program() -> (p: Program)
    ensures
        is_inv_sbox_program(&p),
        p.wf(),
{
    let mut gates: Vec<Gate> = Vec::new();
    let mut k: usize = 0;
    while k < INV_SBOX_GATES
        invariant
            k <= INV_SBOX_GATES,
            gates@.len() == k,
            forall|j: int| 0 <= j < k ==> #[trigger] gates@[j] == inv_sbox_gate(j),
        decreases INV_SBOX_GATES - k,
    {
        gates.push(inv_sbox_gate_at(k));
        k = k + 1;
    }
    let mut outputs: Vec<usize> = Vec::new();
    let mut i: usize = 0;
    while i < 8
        invariant
            i <= 8,
            outputs@.len() == i,
            forall|j: int| 0 <= j < i ==> #[trigger] outputs@[j] == inv_sbox_output(j),
        decreases 8 - i,
    {
        outputs.push(inv_sbox_output_at(i));
        i = i + 1;
    }
    let p = Program { n_inputs: 8, gates, outputs };
    proof {
        lemma_inv_sbox_program_wf(&p);
    }
    p
}

proof fn lemma_inv_sbox_program_wf(p: &Program)
    requires
        is_inv_sbox_program(p),
    ensures
        p.wf(),
{
    assert forall|k: int| 0 <= k < p.gates@.len() implies #[trigger] p.gate_ok(k) by {
        assert(p.gates@[k] == inv_sbox_gate(k));
    }
    assert forall|i: int| 0 <= i < p.outputs@.len() implies #[trigger] p.outputs@[i] < p.n_wires() by {
        assert(p.outputs@[i] == inv_sbox_output(i));
    }
}

/// The outputs of the inv sbox program, read as a byte, are the table entry of its input.
#[verifier::spinoff_prover]
#[verifier::rlimit(40)]
pub proof fn lemma_inv_sbox_program_meaning(p: &Program, x: u8, w: Seq<bool>)
    requires
        is_inv_sbox_program(p),
        p.consistent(bits_of(x), w),
    ensures
        byte_of(p.read_outputs(w)) == inv_sbox_table(x),
{
    let o = p.read_outputs(w);
    assert(w[0] == w.subrange(0, 8)[0]);
    assert(w[1] == w.subrange(0, 8)[1]);
    assert(w[2] == w.subrange(0, 8)[2]);
    assert(w[3] == w.subrange(0, 8)[3]);
    assert(w[4] == w.subrange(0, 8)[4]);
    assert(w[5] == w.subrange(0, 8)[5]);
    assert(w[6] == w.subrange(0, 8)[6]);
    assert(w[7] == w.subrange(0, 8)[7]);
    assert(p.gate_holds(w, 0));
    assert(p.gate_holds(w, 1));
    assert(p.gate_holds(w, 2));
    assert(p.gate_holds(w, 3));
    assert(p.gate_holds(w, 4));
    assert(p.gate_holds(w, 5));
    assert(p.gate_holds(w, 6));
    assert(p.gate_holds(w, 7));
    assert(p.gate_holds(w, 8));
    assert(p.gate_holds(w, 9));
    assert(p.gate_holds(w, 10));
    assert(p.gate_holds(w, 11));
    assert(p.gate_holds(w, 12));
    assert(p.gate_holds(w, 13));
    assert(p.gate_holds(w, 14));
    assert(p.gate_holds(w, 15));
    assert(p.gate_holds(w, 16));
    assert(p.gate_holds(w, 17));
    assert(p.gate_holds(w, 18));
    assert(p.gate_holds(w, 19));
    assert(p.gate_holds(w, 20));
    assert(p.gate_holds(w, 21));
    assert(p.gate_holds(w, 22));
    assert(p.gate_holds(w, 23));
    assert(p.gate_holds(w, 24));
    assert(p.gate_holds(w, 25));
    assert(p.gate_holds(w, 26));
    assert(p.gate_holds(w, 27));
    assert(p.gate_holds(w, 28));
    assert(p.gate_holds(w, 29));
    assert(p.gate_holds(w, 30));
    assert(p.gate_holds(w, 31));
    assert(p.gate_holds(w, 32));
    assert(p.gate_holds(w, 33));
    assert(p.gate_holds(w, 34));
    assert(p.gate_holds(w, 35));
    assert(p.gate_holds(w, 36));
    assert(p.gate_holds(w, 37));
    assert(p.gate_holds(w, 38));
    assert(p.gate_holds(w, 39));
    assert(p.gate_holds(w, 40));
    assert(p.gate_holds(w, 41));
    assert(p.gate_holds(w, 42));
    assert(p.gate_holds(w, 43));
    assert(p.gate_holds(w, 44));
    assert(p.gate_holds(w, 45));
    assert(p.gate_holds(w, 46));
    assert(p.gate_holds(w, 47));
    assert(p.gate_holds(w, 48));
    assert(p.gate_holds(w, 49));
    assert(p.gate_holds(w, 50));
    assert(p.gate_holds(w, 51));
    assert(p.gate_holds(w, 52));
    assert(p.gate_holds(w, 53));
    assert(p.gate_holds(w, 54));
    assert(p.gate_holds(w, 55));
    assert(p.gate_holds(w, 56));
    assert(p.gate_holds(w, 57));
    assert(p.gate_holds(w, 58));
    assert(p.gate_holds(w, 59));
    assert(p.gate_holds(w, 60));
    assert(p.gate_holds(w, 61));
    assert(p.gate_holds(w, 62));
    assert(p.gate_holds(w, 63));
    assert(p.gate_holds(w, 64));
    assert(p.gate_holds(w, 65));
    assert(p.gate_holds(w, 66));
    assert(p.gate_holds(w, 67));
    assert(p.gate_holds(w, 68));
    assert(p.gate_holds(w, 69));
    assert(p.gate_holds(w, 70));
    assert(p.gate_holds(w, 71));
    assert(p.gate_holds(w, 72));
    assert(p.gate_holds(w, 73));
    assert(p.gate_holds(w, 74));
    assert(p.gate_holds(w, 75));
    assert(p.gate_holds(w, 76));
    assert(p.gate_holds(w, 77));
    assert(p.gate_holds(w, 78));
    assert(p.gate_holds(w, 79));
    assert(p.gate_holds(w, 80));
    assert(p.gate_holds(w, 81));
    assert(p.gate_holds(w, 82));
    assert(p.gate_holds(w, 83));
    assert(p.gate_holds(w, 84));
    assert(p.gate_holds(w, 85));
    assert(p.gate_holds(w, 86));
    assert(p.gate_holds(w, 87));
    assert(p.gate_holds(w, 88));
    assert(p.gate_holds(w, 89));
    assert(p.gate_holds(w, 90));
    assert(p.gate_holds(w, 91));
    assert(p.gate_holds(w, 92));
    assert(p.gate_holds(w, 93));
    assert(p.gate_holds(w, 94));
    assert(p.gate_holds(w, 95));
    assert(p.gate_holds(w, 96));
    assert(p.gate_holds(w, 97));
    assert(p.gate_holds(w, 98));
    assert(p.gate_holds(w, 99));
    assert(p.gate_holds(w, 100));
    assert(p.gate_holds(w, 101));
    assert(p.gate_holds(w, 102));
    assert(p.gate_holds(w, 103));
    assert(p.gate_holds(w, 104));
    assert(p.gate_holds(w, 105));
    assert(p.gate_holds(w, 106));
    assert(p.gate_holds(w, 107));
    assert(p.gate_holds(w, 108));
    assert(p.gate_holds(w, 109));
    assert(p.gate_holds(w, 110));
    assert(p.gate_holds(w, 111));
    assert(p.gate_holds(w, 112));
    assert(p.gate_holds(w, 113));
    assert(p.gate_holds(w, 114));
    assert(p.gate_holds(w, 115));
    assert(p.gate_holds(w, 116));
    assert(p.gate_holds(w, 117));
    assert(p.gate_holds(w, 118));
    assert(p.gate_holds(w, 119));
    assert(p.gate_holds(w, 120));
    assert(p.gate_holds(w, 121));
    assert(p.gate_holds(w, 122));
    assert(p.gate_holds(w, 123));
    assert(p.gate_holds(w, 124));
    assert(o[0] == w[117]);
    assert(o[1] == w[121]);
    assert(o[2] == w[124]);
    assert(o[3] == w[132]);
    assert(o[4] == w[120]);
    assert(o[5] == w[129]);
    assert(o[6] == w[127]);
    assert(o[7] == w[122]);
    let w0 = w[0];
    let w1 = w[1];
    let w2 = w[2];
    let w3 = w[3];
    let w4 = w[4];
    let w5 = w[5];
    let w6 = w[6];
    let w7 = w[7];
    let w8 = w[8];
    let w9 = w[9];
    let w10 = w[10];
    let w11 = w[11];
    let w12 = w[12];
    let w13 = w[13];
    let w14 = w[14];
    let w15 = w[15];
    let w16 = w[16];
    let w17 = w[17];
    let w18 = w[18];
    let w19 = w[19];
    let w20 = w[20];
    let w21 = w[21];
    let w22 = w[22];
    let w23 = w[23];
    let w24 = w[24];
    let w25 = w[25];
    let w26 = w[26];
    let w27 = w[27];
    let w28 = w[28];
    let w29 = w[29];
    let w30 = w[30];
    let w31 = w[31];
    let w32 = w[32];
    let w33 = w[33];
    let w34 = w[34];
    let w35 = w[35];
    let w36 = w[36];
    let w37 = w[37];
    let w38 = w[38];
    let w39 = w[39];
    let w40 = w[40];
    let w41 = w[41];
    let w42 = w[42];
    let w43 = w[43];
    let w44 = w[44];
    let w45 = w[45];
    let w46 = w[46];
    let w47 = w[47];
    let w48 = w[48];
    let w49 = w[49];
    let w50 = w[50];
    let w51 = w[51];
    let w52 = w[52];
    let w53 = w[53];
    let w54 = w[54];
    let w55 = w[55];
    let w56 = w[56];
    let w57 = w[57];
    let w58 = w[58];
    let w59 = w[59];
    let w60 = w[60];
    let w61 = w[61];
    let w62 = w[62];
    let w63 = w[63];
    let w64 = w[64];
    let w65 = w[65];
    let w66 = w[66];
    let w67 = w[67];
    let w68 = w[68];
    let w69 = w[69];
    let w70 = w[70];
    let w71 = w[71];
    let w72 = w[72];
    let w73 = w[73];
    let w74 = w[74];
    let w75 = w[75];
    let w76 = w[76];
    let w77 = w[77];
    let w78 = w[78];
    let w79 = w[79];
    let w80 = w[80];
    let w81 = w[81];
    let w82 = w[82];
    let w83 = w[83];
    let w84 = w[84];
    let w85 = w[85];
    let w86 = w[86];
    let w87 = w[87];
    let w88 = w[88];
    let w89 = w[89];
    let w90 = w[90];
    let w91 = w[91];
    let w92 = w[92];
    let w93 = w[93];
    let w94 = w[94];
    let w95 = w[95];
    let w96 = w[96];
    let w97 = w[97];
    let w98 = w[98];
    let w99 = w[99];
    let w100 = w[100];
    let w101 = w[101];
    let w102 = w[102];
    let w103 = w[103];
    let w104 = w[104];
    let w105 = w[105];
    let w106 = w[106];
    let w107 = w[107];
    let w108 = w[108];
    let w109 = w[109];
    let w110 = w[110];
    let w111 = w[111];
    let w112 = w[112];
    let w113 = w[113];
    let w114 = w[114];
    let w115 = w[115];
    let w116 = w[116];
    let w117 = w[117];
    let w118 = w[118];
    let w119 = w[119];
    let w120 = w[120];
    let w121 = w[121];
    let w122 = w[122];
    let w123 = w[123];
    let w124 = w[124];
    let w125 = w[125];
    let w126 = w[126];
    let w127 = w[127];
    let w128 = w[128];
    let w129 = w[129];
    let w130 = w[130];
    let w131 = w[131];
    let w132 = w[132];
    assert(x >> 6u8 < 4u8) by (bit_vector);
    if x >> 6u8 == 0u8 {
        assert(pack8(w117, w121, w124, w132, w120, w129, w127, w122) == inv_sbox_table(x)) by (bit_vector)
            requires
                x >> 6u8 == 0u8,
                w0 == bit(x, 0),
                w1 == bit(x, 1),
                w2 == bit(x, 2),
                w3 == bit(x, 3),
                w4 == bit(x, 4),
                w5 == bit(x, 5),
                w6 == bit(x, 6),
                w7 == bit(x, 7),
                w8 == (w7 != w4),
                w9 == (w6 != w4),
                w10 == (!w9),
                w11 == (w7 != w10),
                w12 == (w1 != w0),
                w13 == (w10 != w12),
                w14 == (w5 != w13),
                w15 == (!w14),
                w16 == (w4 != w3),
                w17 == (w0 != w16),
                w18 == (!w17),
                w19 == (w13 != w16),
                w20 == (w7 != w5),
                w21 == (!w20),
                w22 == (w2 != w21),
                w23 == (w8 != w10),
                w24 == (w13 != w19),
                w25 == (w11 != w18),
                w26 == (w22 != w15),
                w27 == (w8 != w13),
                w28 == (w10 != w19),
                w29 == (w24 != w23),
                w30 == (w11 != w22),
                w31 == (w18 != w15),
                w32 == (w26 != w25),
                w33 == (w24 != w26),
                w34 == (w28 != w31),
                w35 == (w19 != w15),
                w36 == (w23 != w25),
                w37 == (w27 && w30),
                w38 == (w8 && w11),
                w39 == (w33 != w37),
                w40 == (w13 && w22),
                w41 == (w40 != w37),
                w42 == (w28 && w31),
                w43 == (w10 && w18),
                w44 == (w34 != w42),
                w45 == (w19 && w15),
                w46 == (w45 != w42),
                w47 == (w24 && w26),
                w48 == (w29 && w32),
                w49 == (w48 != w47),
                w50 == (w23 && w25),
                w51 == (w50 != w47),
                w52 == (w39 != w38),
                w53 == (w41 != w36),
                w54 == (w44 != w43),
                w55 == (w46 != w51),
                w56 == (w52 != w49),
                w57 == (w53 != w51),
                w58 == (w54 != w49),
                w59 == (w55 != w35),
                w60 == (w58 != w59),
                w61 == (w58 && w56),
                w62 == (w57 != w61),
                w63 == (w56 != w57),
                w64 == (w59 != w61),
                w65 == (w64 && w63),
                w66 == (w62 && w60),
                w67 == (w59 != w66),
                w68 == (w57 != w65),
                w69 == (w56 && w59),
                w70 == (w63 && w69),
                w71 == (w63 != w61),
                w72 == (w70 != w71),
                w73 == (w57 && w58),
                w74 == (w60 && w73),
                w75 == (w60 != w61),
                w76 == (w74 != w75),
                w77 == (w72 != w76),
                w78 == (w68 != w67),
                w79 == (w68 != w72),
                w80 == (w67 != w76),
                w81 == (w78 != w77),
                w82 == (w80 && w30),
                w83 == (w76 && w11),
                w84 == (w67 && w22),
                w85 == (w79 && w31),
                w86 == (w72 && w18),
                w87 == (w68 && w15),
                w88 == (w78 && w26),
                w89 == (w81 && w32),
                w90 == (w77 && w25),
                w91 == (w80 && w27),
                w92 == (w76 && w8),
                w93 == (w67 && w13),
                w94 == (w79 && w28),
                w95 == (w72 && w10),
                w96 == (w68 && w19),
                w97 == (w78 && w24),
                w98 == (w81 && w29),
                w99 == (w77 && w23),
                w100 == (w83 != w82),
                w101 == (w84 != w82),
                w102 == (w86 != w85),
                w103 == (w87 != w85),
                w104 == (w89 != w88),
                w105 == (w90 != w88),
                w106 == (w100 != w104),
                w107 == (w101 != w105),
                w108 == (w102 != w104),
                w109 == (w103 != w105),
                w110 == (w92 != w91),
                w111 == (w93 != w91),
                w112 == (w95 != w94),
                w113 == (w96 != w94),
                w114 == (w98 != w97),
                w115 == (w99 != w97),
                w116 == (w110 != w114),
                w117 == (w111 != w115),
                w118 == (w112 != w114),
                w119 == (w113 != w115),
                w120 == (w107 != w118),
                w121 == (w108 != w118),
                w122 == (w109 != w118),
                w123 == (w106 != w108),
                w124 == (w122 != w123),
                w125 == (w116 != w119),
                w126 == (w123 != w125),
                w127 == (w120 != w126),
                w128 == (w107 != w117),
                w129 == (w126 != w128),
                w130 == (w106 != w116),
                w131 == (w124 != w128),
                w132 == (w130 != w131),
        ;
    }
    if x >> 6u8 == 1u8 {
        assert(pack8(w117, w121, w124, w132, w120, w129, w127, w122) == inv_sbox_table(x)) by (bit_vector)
            requires
                x >> 6u8 == 1u8,
                w0 == bit(x, 0),
                w1 == bit(x, 1),
                w2 == bit(x, 2),
                w3 == bit(x, 3),
                w4 == bit(x, 4),
                w5 == bit(x, 5),
                w6 == bit(x, 6),
                w7 == bit(x, 7),
                w8 == (w7 != w4),
                w9 == (w6 != w4),
                w10 == (!w9),
                w11 == (w7 != w10),
                w12 == (w1 != w0),
                w13 == (w10 != w12),
                w14 == (w5 != w13),
                w15 == (!w14),
                w16 == (w4 != w3),
                w17 == (w0 != w16),
                w18 == (!w17),
                w19 == (w13 != w16),
                w20 == (w7 != w5),
                w21 == (!w20),
                w22 == (w2 != w21),
                w23 == (w8 != w10),
                w24 == (w13 != w19),
                w25 == (w11 != w18),
                w26 == (w22 != w15),
                w27 == (w8 != w13),
                w28 == (w10 != w19),
                w29 == (w24 != w23),
                w30 == (w11 != w22),
                w31 == (w18 != w15),
                w32 == (w26 != w25),
                w33 == (w24 != w26),
                w34 == (w28 != w31),
                w35 == (w19 != w15),
                w36 == (w23 != w25),
                w37 == (w27 && w30),
                w38 == (w8 && w11),
                w39 == (w33 != w37),
                w40 == (w13 && w22),
                w41 == (w40 != w37),
                w42 == (w28 && w31),
                w43 == (w10 && w18),
                w44 == (w34 != w42),
                w45 == (w19 && w15),
                w46 == (w45 != w42),
                w47 == (w24 && w26),
                w48 == (w29 && w32),
                w49 == (w48 != w47),
                w50 == (w23 && w25),
                w51 == (w50 != w47),
                w52 == (w39 != w38),
                w53 == (w41 != w36),
                w54 == (w44 != w43),
                w55 == (w46 != w51),
                w56 == (w52 != w49),
                w57 == (w53 != w51),
                w58 == (w54 != w49),
                w59 == (w55 != w35),
                w60 == (w58 != w59),
                w61 == (w58 && w56),
                w62 == (w57 != w61),
                w63 == (w56 != w57),
                w64 == (w59 != w61),
                w65 == (w64 && w63),
                w66 == (w62 && w60),
                w67 == (w59 != w66),
                w68 == (w57 != w65),
                w69 == (w56 && w59),
                w70 == (w63 && w69),
                w71 == (w63 != w61),
                w72 == (w70 != w71),
                w73 == (w57 && w58),
                w74 == (w60 && w73),
                w75 == (w60 != w61),
                w76 == (w74 != w75),
                w77 == (w72 != w76),
                w78 == (w68 != w67),
                w79 == (w68 != w72),
                w80 == (w67 != w76),
                w81 == (w78 != w77),
                w82 == (w80 && w30),
                w83 == (w76 && w11),
                w84 == (w67 && w22),
                w85 == (w79 && w31),
                w86 == (w72 && w18),
                w87 == (w68 && w15),
                w88 == (w78 && w26),
                w89 == (w81 && w32),
                w90 == (w77 && w25),
                w91 == (w80 && w27),
                w92 == (w76 && w8),
                w93 == (w67 && w13),
                w94 == (w79 && w28),
                w95 == (w72 && w10),
                w96 == (w68 && w19),
                w97 == (w78 && w24),
                w98 == (w81 && w29),
                w99 == (w77 && w23),
                w100 == (w83 != w82),
                w101 == (w84 != w82),
                w102 == (w86 != w85),
                w103 == (w87 != w85),
                w104 == (w89 != w88),
                w105 == (w90 != w88),
                w106 == (w100 != w104),
                w107 == (w101 != w105),
                w108 == (w102 != w104),
                w109 == (w103 != w105),
                w110 == (w92 != w91),
                w111 == (w93 != w91),
                w112 == (w95 != w94),
                w113 == (w96 != w94),
                w114 == (w98 != w97),
                w115 == (w99 != w97),
                w116 == (w110 != w114),
                w117 == (w111 != w115),
                w118 == (w112 != w114),
                w119 == (w113 != w115),
                w120 == (w107 != w118),
                w121 == (w108 != w118),
                w122 == (w109 != w118),
                w123 == (w106 != w108),
                w124 == (w122 != w123),
                w125 == (w116 != w119),
                w126 == (w123 != w125),
                w127 == (w120 != w126),
                w128 == (w107 != w117),
                w129 == (w126 != w128),
                w130 == (w106 != w116),
                w131 == (w124 != w128),
                w132 == (w130 != w131),
        ;
    }
    if x >> 6u8 == 2u8 {
        assert(pack8(w117, w121, w124, w132, w120, w129, w127, w122) == inv_sbox_table(x)) by (bit_vector)
            requires
                x >> 6u8 == 2u8,
                w0 == bit(x, 0),
                w1 == bit(x, 1),
                w2 == bit(x, 2),
                w3 == bit(x, 3),
                w4 == bit(x, 4),
                w5 == bit(x, 5),
                w6 == bit(x, 6),
                w7 == bit(x, 7),
                w8 == (w7 != w4),
                w9 == (w6 != w4),
                w10 == (!w9),
                w11 == (w7 != w10),
                w12 == (w1 != w0),
                w13 == (w10 != w12),
                w14 == (w5 != w13),
                w15 == (!w14),
                w16 == (w4 != w3),
                w17 == (w0 != w16),
                w18 == (!w17),
                w19 == (w13 != w16),
                w20 == (w7 != w5),
                w21 == (!w20),
                w22 == (w2 != w21),
                w23 == (w8 != w10),
                w24 == (w13 != w19),
                w25 == (w11 != w18),
                w26 == (w22 != w15),
                w27 == (w8 != w13),
                w28 == (w10 != w19),
                w29 == (w24 != w23),
                w30 == (w11 != w22),
                w31 == (w18 != w15),
                w32 == (w26 != w25),
                w33 == (w24 != w26),
                w34 == (w28 != w31),
                w35 == (w19 != w15),
                w36 == (w23 != w25),
                w37 == (w27 && w30),
                w38 == (w8 && w11),
                w39 == (w33 != w37),
                w40 == (w13 && w22),
                w41 == (w40 != w37),
                w42 == (w28 && w31),
                w43 == (w10 && w18),
                w44 == (w34 != w42),
                w45 == (w19 && w15),
                w46 == (w45 != w42),
                w47 == (w24 && w26),
                w48 == (w29 && w32),
                w49 == (w48 != w47),
                w50 == (w23 && w25),
                w51 == (w50 != w47),
                w52 == (w39 != w38),
                w53 == (w41 != w36),
                w54 == (w44 != w43),
                w55 == (w46 != w51),
                w56 == (w52 != w49),
                w57 == (w53 != w51),
                w58 == (w54 != w49),
                w59 == (w55 != w35),
                w60 == (w58 != w59),
                w61 == (w58 && w56),
                w62 == (w57 != w61),
                w63 == (w56 != w57),
                w64 == (w59 != w61),
                w65 == (w64 && w63),
                w66 == (w62 && w60),
                w67 == (w59 != w66),
                w68 == (w57 != w65),
                w69 == (w56 && w59),
                w70 == (w63 && w69),
                w71 == (w63 != w61),
                w72 == (w70 != w71),
                w73 == (w57 && w58),
                w74 == (w60 && w73),
                w75 == (w60 != w61),
                w76 == (w74 != w75),
                w77 == (w72 != w76),
                w78 == (w68 != w67),
                w79 == (w68 != w72),
                w80 == (w67 != w76),
                w81 == (w78 != w77),
                w82 == (w80 && w30),
                w83 == (w76 && w11),
                w84 == (w67 && w22),
                w85 == (w79 && w31),
                w86 == (w72 && w18),
                w87 == (w68 && w15),
                w88 == (w78 && w26),
                w89 == (w81 && w32),
                w90 == (w77 && w25),
                w91 == (w80 && w27),
                w92 == (w76 && w8),
                w93 == (w67 && w13),
                w94 == (w79 && w28),
                w95 == (w72 && w10),
                w96 == (w68 && w19),
                w97 == (w78 && w24),
                w98 == (w81 && w29),
                w99 == (w77 && w23),
                w100 == (w83 != w82),
                w101 == (w84 != w82),
                w102 == (w86 != w85),
                w103 == (w87 != w85),
                w104 == (w89 != w88),
                w105 == (w90 != w88),
                w106 == (w100 != w104),
                w107 == (w101 != w105),
                w108 == (w102 != w104),
                w109 == (w103 != w105),
                w110 == (w92 != w91),
                w111 == (w93 != w91),
                w112 == (w95 != w94),
                w113 == (w96 != w94),
                w114 == (w98 != w97),
                w115 == (w99 != w97),
                w116 == (w110 != w114),
                w117 == (w111 != w115),
                w118 == (w112 != w114),
                w119 == (w113 != w115),
                w120 == (w107 != w118),
                w121 == (w108 != w118),
                w122 == (w109 != w118),
                w123 == (w106 != w108),
                w124 == (w122 != w123),
                w125 == (w116 != w119),
                w126 == (w123 != w125),
                w127 == (w120 != w126),
                w128 == (w107 != w117),
                w129 == (w126 != w128),
                w130 == (w106 != w116),
                w131 == (w124 != w128),
                w132 == (w130 != w131),
        ;
    }
    if x >> 6u8 == 3u8 {
        assert(pack8(w117, w121, w124, w132, w120, w129, w127, w122) == inv_sbox_table(x)) by (bit_vector)
            requires
                x >> 6u8 == 3u8,
                w0 == bit(x, 0),
                w1 == bit(x, 1),
                w2 == bit(x, 2),
                w3 == bit(x, 3),
                w4 == bit(x, 4),
                w5 == bit(x, 5),
                w6 == bit(x, 6),
                w7 == bit(x, 7),
                w8 == (w7 != w4),
                w9 == (w6 != w4),
                w10 == (!w9),
                w11 == (w7 != w10),
                w12 == (w1 != w0),
                w13 == (w10 != w12),
                w14 == (w5 != w13),
                w15 == (!w14),
                w16 == (w4 != w3),
                w17 == (w0 != w16),
                w18 == (!w17),
                w19 == (w13 != w16),
                w20 == (w7 != w5),
                w21 == (!w20),
                w22 == (w2 != w21),
                w23 == (w8 != w10),
                w24 == (w13 != w19),
                w25 == (w11 != w18),
                w26 == (w22 != w15),
                w27 == (w8 != w13),
                w28 == (w10 != w19),
                w29 == (w24 != w23),
                w30 == (w11 != w22),
                w31 == (w18 != w15),
                w32 == (w26 != w25),
                w33 == (w24 != w26),
                w34 == (w28 != w31),
                w35 == (w19 != w15),
                w36 == (w23 != w25),
                w37 == (w27 && w30),
                w38 == (w8 && w11),
                w39 == (w33 != w37),
                w40 == (w13 && w22),
                w41 == (w40 != w37),
                w42 == (w28 && w31),
                w43 == (w10 && w18),
                w44 == (w34 != w42),
                w45 == (w19 && w15),
                w46 == (w45 != w42),
                w47 == (w24 && w26),
                w48 == (w29 && w32),
                w49 == (w48 != w47),
                w50 == (w23 && w25),
                w51 == (w50 != w47),
                w52 == (w39 != w38),
                w53 == (w41 != w36),
                w54 == (w44 != w43),
                w55 == (w46 != w51),
                w56 == (w52 != w49),
                w57 == (w53 != w51),
                w58 == (w54 != w49),
                w59 == (w55 != w35),
                w60 == (w58 != w59),
                w61 == (w58 && w56),
                w62 == (w57 != w61),
                w63 == (w56 != w57),
                w64 == (w59 != w61),
                w65 == (w64 && w63),
                w66 == (w62 && w60),
                w67 == (w59 != w66),
                w68 == (w57 != w65),
                w69 == (w56 && w59),
                w70 == (w63 && w69),
                w71 == (w63 != w61),
                w72 == (w70 != w71),
                w73 == (w57 && w58),
                w74 == (w60 && w73),
                w75 == (w60 != w61),
                w76 == (w74 != w75),
                w77 == (w72 != w76),
                w78 == (w68 != w67),
                w79 == (w68 != w72),
                w80 == (w67 != w76),
                w81 == (w78 != w77),
                w82 == (w80 && w30),
                w83 == (w76 && w11),
                w84 == (w67 && w22),
                w85 == (w79 && w31),
                w86 == (w72 && w18),
                w87 == (w68 && w15),
                w88 == (w78 && w26),
                w89 == (w81 && w32),
                w90 == (w77 && w25),
                w91 == (w80 && w27),
                w92 == (w76 && w8),
                w93 == (w67 && w13),
                w94 == (w79 && w28),
                w95 == (w72 && w10),
                w96 == (w68 && w19),
                w97 == (w78 && w24),
                w98 == (w81 && w29),
                w99 == (w77 && w23),
                w100 == (w83 != w82),
                w101 == (w84 != w82),
                w102 == (w86 != w85),
                w103 == (w87 != w85),
                w104 == (w89 != w88),
                w105 == (w90 != w88),
                w106 == (w100 != w104),
                w107 == (w101 != w105),
                w108 == (w102 != w104),
                w109 == (w103 != w105),
                w110 == (w92 != w91),
                w111 == (w93 != w91),
                w112 == (w95 != w94),
                w113 == (w96 != w94),
                w114 == (w98 != w97),
                w115 == (w99 != w97),
                w116 == (w110 != w114),
                w117 == (w111 != w115),
                w118 == (w112 != w114),
                w119 == (w113 != w115),
                w120 == (w107 != w118),
                w121 == (w108 != w118),
                w122 == (w109 != w118),
                w123 == (w106 != w108),
                w124 == (w122 != w123),
                w125 == (w116 != w119),
                w126 == (w123 != w125),
                w127 == (w120 != w126),
                w128 == (w107 != w117),
                w129 == (w126 != w128),
                w130 == (w106 != w116),
                w131 == (w124 != w128),
                w132 == (w130 != w131),
        ;
    }
}

pub const MIX_COLUMNS_GATES: usize = 92;

/// Instruction `k` of the mix columns program.
pub open spec fn mix_columns_gate(k: int) -> Gate {
    if k == 0 {
        xor_gate(0, 8)
    } else if k == 1 {
        xor_gate(16, 24)
    } else if k == 2 {
        xor_gate(1, 9)
    } else if k == 3 {
        xor_gate(17, 25)
    } else if k == 4 {
        xor_gate(2, 10)
    } else if k == 5 {
        xor_gate(18, 26)
    } else if k == 6 {
        xor_gate(3, 11)
    } else if k == 7 {
        xor_gate(19, 27)
    } else if k == 8 {
        xor_gate(4, 12)
    } else if k == 9 {
        xor_gate(20, 28)
    } else if k == 10 {
        xor_gate(5, 13)
    } else if k == 11 {
        xor_gate(21, 29)
    } else if k == 12 {
        xor_gate(6, 14)
    } else if k == 13 {
        xor_gate(22, 30)
    } else if k == 14 {
        xor_gate(23, 31)
    } else if k == 15 {
        xor_gate(7, 15)
    } else if k == 16 {
        xor_gate(8, 33)
    } else if k == 17 {
        xor_gate(47, 48)
    } else if k == 18 {
        xor_gate(7, 23)
    } else if k == 19 {
        xor_gate(24, 32)
    } else if k == 20 {
        xor_gate(46, 51)
    } else if k == 21 {
        xor_gate(33, 52)
    } else if k == 22 {
        xor_gate(50, 53)
    } else if k == 23 {
        xor_gate(27, 46)
    } else if k == 24 {
        xor_gate(32, 49)
    } else if k == 25 {
        xor_gate(50, 56)
    } else if k == 26 {
        xor_gate(37, 55)
    } else if k == 27 {
        xor_gate(38, 58)
    } else if k == 28 {
        xor_gate(11, 47)
    } else if k == 29 {
        xor_gate(39, 60)
    } else if k == 30 {
        xor_gate(36, 61)
    } else if k == 31 {
        xor_gate(2, 18)
    } else if k == 32 {
        xor_gate(50, 63)
    } else if k == 33 {
        xor_gate(41, 60)
    } else if k == 34 {
        xor_gate(40, 55)
    } else if k == 35 {
        xor_gate(10, 34)
    } else if k == 36 {
        xor_gate(37, 67)
    } else if k == 37 {
        xor_gate(26, 35)
    } else if k == 38 {
        xor_gate(36, 69)
    } else if k == 39 {
        xor_gate(9, 25)
    } else if k == 40 {
        xor_gate(63, 71)
    } else if k == 41 {
        xor_gate(69, 72)
    } else if k == 42 {
        xor_gate(67, 72)
    } else if k == 43 {
        xor_gate(1, 51)
    } else if k == 44 {
        xor_gate(30, 43)
    } else if k == 45 {
        xor_gate(44, 76)
    } else if k == 46 {
        xor_gate(14, 45)
    } else if k == 47 {
        xor_gate(42, 78)
    } else if k == 48 {
        xor_gate(5, 21)
    } else if k == 49 {
        xor_gate(30, 50)
    } else if k == 50 {
        xor_gate(17, 48)
    } else if k == 51 {
        xor_gate(13, 40)
    } else if k == 52 {
        xor_gate(43, 83)
    } else if k == 53 {
        xor_gate(12, 80)
    } else if k == 54 {
        xor_gate(29, 41)
    } else if k == 55 {
        xor_gate(42, 86)
    } else if k == 56 {
        xor_gate(28, 85)
    } else if k == 57 {
        xor_gate(86, 88)
    } else if k == 58 {
        xor_gate(83, 88)
    } else if k == 59 {
        xor_gate(15, 44)
    } else if k == 60 {
        xor_gate(46, 91)
    } else if k == 61 {
        xor_gate(14, 81)
    } else if k == 62 {
        xor_gate(91, 93)
    } else if k == 63 {
        xor_gate(31, 45)
    } else if k == 64 {
        xor_gate(93, 95)
    } else if k == 65 {
        xor_gate(47, 95)
    } else if k == 66 {
        xor_gate(44, 80)
    } else if k == 67 {
        xor_gate(79, 98)
    } else if k == 68 {
        xor_gate(71, 75)
    } else if k == 69 {
        xor_gate(53, 100)
    } else if k == 70 {
        xor_gate(38, 62)
    } else if k == 71 {
        xor_gate(64, 102)
    } else if k == 72 {
        xor_gate(34, 82)
    } else if k == 73 {
        xor_gate(54, 104)
    } else if k == 74 {
        xor_gate(39, 59)
    } else if k == 75 {
        xor_gate(64, 106)
    } else if k == 76 {
        xor_gate(22, 98)
    } else if k == 77 {
        xor_gate(43, 108)
    } else if k == 78 {
        xor_gate(19, 66)
    } else if k == 79 {
        xor_gate(28, 110)
    } else if k == 80 {
        xor_gate(3, 65)
    } else if k == 81 {
        xor_gate(12, 112)
    } else if k == 82 {
        xor_gate(35, 75)
    } else if k == 83 {
        xor_gate(57, 114)
    } else if k == 84 {
        xor_gate(56, 71)
    } else if k == 85 {
        xor_gate(82, 116)
    } else if k == 86 {
        xor_gate(4, 50)
    } else if k == 87 {
        xor_gate(19, 118)
    } else if k == 88 {
        xor_gate(65, 119)
    } else if k == 89 {
        xor_gate(3, 66)
    } else if k == 90 {
        xor_gate(50, 121)
    } else {
        xor_gate(20, 122)
    }
}

/// Output `i` of the mix columns program.
pub open spec fn mix_columns_output(i: int) -> usize {
    if i == 0 {
        49
    } else if i == 1 {
        117
    } else if i == 2 {
        68
    } else if i == 3 {
        62
    } else if i == 4 {
        113
    } else if i == 5 {
        84
    } else if i == 6 {
        79
    } else if i == 7 {
        92
    } else if i == 8 {
        57
    } else if i == 9 {
        115
    } else if i == 10 {
        73
    } else if i == 11 {
        103
    } else if i == 12 {
        120
    } else if i == 13 {
        89
    } else if i == 14 {
        99
    } else if i == 15 {
        96
    } else if i == 16 {
        52
    } else if i == 17 {
        101
    } else if i == 18 {
        70
    } else if i == 19 {
        59
    } else if i == 20 {
        111
    } else if i == 21 {
        87
    } else if i == 22 {
        77
    } else if i == 23 {
        97
    } else if i == 24 {
        54
    } else if i == 25 {
        105
    } else if i == 26 {
        74
    } else if i == 27 {
        107
    } else if i == 28 {
        123
    } else if i == 29 {
        90
    } else if i == 30 {
        109
    } else {
        94
    }
}

fn mix_columns_gate_at(k: usize) -> (g: Gate)
    requires
        k < MIX_COLUMNS_GATES,
    ensures
        g == mix_columns_gate(k as int),
{
    match k {
        0 => xor(0, 8),  // t0 = x0 ^ x8
        1 => xor(16, 24),  // t1 = x16 ^ x24
        2 => xor(1, 9),  // t2 = x1 ^ x9
        3 => xor(17, 25),  // t3 = x17 ^ x25
        4 => xor(2, 10),  // t4 = x2 ^ x10
        5 => xor(18, 26),  // t5 = x18 ^ x26
        6 => xor(3, 11),  // t6 = x3 ^ x11
        7 => xor(19, 27),  // t7 = x19 ^ x27
        8 => xor(4, 12),  // t8 = x4 ^ x12
        9 => xor(20, 28),  // t9 = x20 ^ x28
        10 => xor(5, 13),  // t10 = x5 ^ x13
        11 => xor(21, 29),  // t11 = x21 ^ x29
        12 => xor(6, 14),  // t12 = x6 ^ x14
        13 => xor(22, 30),  // t13 = x22 ^ x30
        14 => xor(23, 31),  // t14 = x23 ^ x31
        15 => xor(7, 15),  // t15 = x7 ^ x15
        16 => xor(8, 33),  // t16 = x8 ^ t1
        17 => xor(47, 48),  // y0 = t15 ^ t16
        18 => xor(7, 23),  // t17 = x7 ^ x23
        19 => xor(24, 32),  // t18 = x24 ^ t0
        20 => xor(46, 51),  // y16 = t14 ^ t18
        21 => xor(33, 52),  // t19 = t1 ^ y16
        22 => xor(50, 53),  // y24 = t17 ^ t19
        23 => xor(27, 46),  // t20 = x27 ^ t14
        24 => xor(32, 49),  // t21 = t0 ^ y0
        25 => xor(50, 56),  // y8 = t17 ^ t21
        26 => xor(37, 55),  // t22 = t5 ^ t20
        27 => xor(38, 58),  // y19 = t6 ^ t22
        28 => xor(11, 47),  // t23 = x11 ^ t15
        29 => xor(39, 60),  // t24 = t7 ^ t23
        30 => xor(36, 61),  // y3 = t4 ^ t24
        31 => xor(2, 18),  // t25 = x2 ^ x18
        32 => xor(50, 63),  // t26 = t17 ^ t25
        33 => xor(41, 60),  // t27 = t9 ^ t23
        34 => xor(40, 55),  // t28 = t8 ^ t20
        35 => xor(10, 34),  // t29 = x10 ^ t2
        36 => xor(37, 67),  // y2 = t5 ^ t29
        37 => xor(26, 35),  // t30 = x26 ^ t3
        38 => xor(36, 69),  // y18 = t4 ^ t30
        39 => xor(9, 25),  // t31 = x9 ^ x25
        40 => xor(63, 71),  // t32 = t25 ^ t31
        41 => xor(69, 72),  // y10 = t30 ^ t32
        42 => xor(67, 72),  // y26 = t29 ^ t32
        43 => xor(1, 51),  // t33 = x1 ^ t18
        44 => xor(30, 43),  // t34 = x30 ^ t11
        45 => xor(44, 76),  // y22 = t12 ^ t34
        46 => xor(14, 45),  // t35 = x14 ^ t13
        47 => xor(42, 78),  // y6 = t10 ^ t35
        48 => xor(5, 21),  // t36 = x5 ^ x21
        49 => xor(30, 50),  // t37 = x30 ^ t17
        50 => xor(17, 48),  // t38 = x17 ^ t16
        51 => xor(13, 40),  // t39 = x13 ^ t8
        52 => xor(43, 83),  // y5 = t11 ^ t39
        53 => xor(12, 80),  // t40 = x12 ^ t36
        54 => xor(29, 41),  // t41 = x29 ^ t9
        55 => xor(42, 86),  // y21 = t10 ^ t41
        56 => xor(28, 85),  // t42 = x28 ^ t40
        57 => xor(86, 88),  // y13 = t41 ^ t42
        58 => xor(83, 88),  // y29 = t39 ^ t42
        59 => xor(15, 44),  // t43 = x15 ^ t12
        60 => xor(46, 91),  // y7 = t14 ^ t43
        61 => xor(14, 81),  // t44 = x14 ^ t37
        62 => xor(91, 93),  // y31 = t43 ^ t44
        63 => xor(31, 45),  // t45 = x31 ^ t13
        64 => xor(93, 95),  // y15 = t44 ^ t45
        65 => xor(47, 95),  // y23 = t15 ^ t45
        66 => xor(44, 80),  // t46 = t12 ^ t36
        67 => xor(79, 98),  // y14 = y6 ^ t46
        68 => xor(71, 75),  // t47 = t31 ^ t33
        69 => xor(53, 100),  // y17 = t19 ^ t47
        70 => xor(38, 62),  // t48 = t6 ^ y3
        71 => xor(64, 102),  // y11 = t26 ^ t48
        72 => xor(34, 82),  // t49 = t2 ^ t38
        73 => xor(54, 104),  // y25 = y24 ^ t49
        74 => xor(39, 59),  // t50 = t7 ^ y19
        75 => xor(64, 106),  // y27 = t26 ^ t50
        76 => xor(22, 98),  // t51 = x22 ^ t46
        77 => xor(43, 108),  // y30 = t11 ^ t51
        78 => xor(19, 66),  // t52 = x19 ^ t28
        79 => xor(28, 110),  // y20 = x28 ^ t52
        80 => xor(3, 65),  // t53 = x3 ^ t27
        81 => xor(12, 112),  // y4 = x12 ^ t53
        82 => xor(35, 75),  // t54 = t3 ^ t33
        83 => xor(57, 114),  // y9 = y8 ^ t54
        84 => xor(56, 71),  // t55 = t21 ^ t31
        85 => xor(82, 116),  // y1 = t38 ^ t55
        86 => xor(4, 50),  // t56 = x4 ^ t17
        87 => xor(19, 118),  // t57 = x19 ^ t56
        88 => xor(65, 119),  // y12 = t27 ^ t57
        89 => xor(3, 66),  // t58 = x3 ^ t28
        90 => xor(50, 121),  // t59 = t17 ^ t58
        _ => xor(20, 122),  // y28 = x20 ^ t59
    }
}

fn mix_columns_output_at(i: usize) -> (o: usize)
    requires
        i < 32,
    ensures
        o == mix_columns_output(i as int),
{
    match i {
        0 => 49,
        1 => 117,
        2 => 68,
        3 => 62,
        4 => 113,
        5 => 84,
        6 => 79,
        7 => 92,
        8 => 57,
        9 => 115,
        10 => 73,
        11 => 103,
        12 => 120,
        13 => 89,
        14 => 99,
        15 => 96,
        16 => 52,
        17 => 101,
        18 => 70,
        19 => 59,
        20 => 111,
        21 => 87,
        22 => 77,
        23 => 97,
        24 => 54,
        25 => 105,
        26 => 74,
        27 => 107,
        28 => 123,
        29 => 90,
        30 => 109,
        _ => 94,
    }
}

/// `p` is the mix columns program.
pub open spec fn is_mix_columns_program(p: &Program) -> bool {
    &&& p.n_inputs == 32
    &&& p.gates@.len() == MIX_COLUMNS_GATES
    &&& p.outputs@.len() == 32
    &&& forall|k: int| 0 <= k < MIX_COLUMNS_GATES ==> #[trigger] p.gates@[k] == mix_columns_gate(k)
    &&& forall|i: int| 0 <= i < 32 ==> #[trigger] p.outputs@[i] == mix_columns_output(i)
}

pub fn mix_columns_program() -> (p: Program)
    ensures
        is_mix_columns_program(&p),
        p.wf(),
{
    let mut gates: Vec<Gate> = Vec::new();
    let mut k: usize = 0;
    while k < MIX_COLUMNS_GATES
        invariant
            k <= MIX_COLUMNS_GATES,
            gates@.len() == k,
            forall|j: int| 0 <= j < k ==> #[trigger] gates@[j] == mix_columns_gate(j),
        decreases MIX_COLUMNS_GATES - k,
    {
        gates.push(mix_columns_gate_at(k));
        k = k + 1;
    }
    let mut outputs: Vec<usize> = Vec::new();
    let mut i: usize = 0;
    while i < 32
        invariant
            i <= 32,
            outputs@.len() == i,
            forall|j: int| 0 <= j < i ==> #[trigger] outputs@[j] == mix_columns_output(j),
        decreases 32 - i,
    {
        outputs.push(mix_columns_output_at(i));
        i = i + 1;
    }
    let p = Program { n_inputs: 32, gates, outputs };
    proof {
        lemma_mix_columns_program_wf(&p);
    }
    p
}

proof fn lemma_mix_columns_program_wf(p: &Program)
    requires
        is_mix_columns_program(p),
    ensures
        p.wf(),
{
    assert forall|k: int| 0 <= k < p.gates@.len() implies #[trigger] p.gate_ok(k) by {
        assert(p.gates@[k] == mix_columns_gate(k));
    }
    assert forall|i: int| 0 <= i < p.outputs@.len() implies #[trigger] p.outputs@[i] < p.n_wires() by {
        assert(p.outputs@[i] == mix_columns_output(i));
    }
}

/// Byte 0 of the column that the MixColumns circuit computes from `a, b, c, d`.
pub open spec fn mix_columns_circuit_0(a: u8, b: u8, c: u8, d: u8) -> u8 {
    let x0 = bit(a, 0);
    let x1 = bit(a, 1);
    let x2 = bit(a, 2);
    let x3 = bit(a, 3);
    let x4 = bit(a, 4);
    let x5 = bit(a, 5);
    let x6 = bit(a, 6);
    let x7 = bit(a, 7);
    let x8 = bit(b, 0);
    let x9 = bit(b, 1);
    let x10 = bit(b, 2);
    let x11 = bit(b, 3);
    let x12 = bit(b, 4);
    let x13 = bit(b, 5);
    let x14 = bit(b, 6);
    let x15 = bit(b, 7);
    let x16 = bit(c, 0);
    let x17 = bit(c, 1);
    let x18 = bit(c, 2);
    let x19 = bit(c, 3);
    let x20 = bit(c, 4);
    let x21 = bit(c, 5);
    let x22 = bit(c, 6);
    let x23 = bit(c, 7);
    let x24 = bit(d, 0);
    let x25 = bit(d, 1);
    let x26 = bit(d, 2);
    let x27 = bit(d, 3);
    let x28 = bit(d, 4);
    let x29 = bit(d, 5);
    let x30 = bit(d, 6);
    let x31 = bit(d, 7);
    let t0 = x0 != x8;
    let t1 = x16 != x24;
    let t2 = x1 != x9;
    let t3 = x17 != x25;
    let t4 = x2 != x10;
    let t5 = x18 != x26;
    let t6 = x3 != x11;
    let t7 = x19 != x27;
    let t8 = x4 != x12;
    let t9 = x20 != x28;
    let t10 = x5 != x13;
    let t11 = x21 != x29;
    let t12 = x6 != x14;
    let t13 = x22 != x30;
    let t14 = x23 != x31;
    let t15 = x7 != x15;
    let t16 = x8 != t1;
    let y0 = t15 != t16;
    let t17 = x7 != x23;
    let t18 = x24 != t0;
    let y16 = t14 != t18;
    let t19 = t1 != y16;
    let y24 = t17 != t19;
    let t20 = x27 != t14;
    let t21 = t0 != y0;
    let y8 = t17 != t21;
    let t22 = t5 != t20;
    let y19 = t6 != t22;
    let t23 = x11 != t15;
    let t24 = t7 != t23;
    let y3 = t4 != t24;
    let t25 = x2 != x18;
    let t26 = t17 != t25;
    let t27 = t9 != t23;
    let t28 = t8 != t20;
    let t29 = x10 != t2;
    let y2 = t5 != t29;
    let t30 = x26 != t3;
    let y18 = t4 != t30;
    let t31 = x9 != x25;
    let t32 = t25 != t31;
    let y10 = t30 != t32;
    let y26 = t29 != t32;
    let t33 = x1 != t18;
    let t34 = x30 != t11;
    let y22 = t12 != t34;
    let t35 = x14 != t13;
    let y6 = t10 != t35;
    let t36 = x5 != x21;
    let t37 = x30 != t17;
    let t38 = x17 != t16;
    let t39 = x13 != t8;
    let y5 = t11 != t39;
    let t40 = x12 != t36;
    let t41 = x29 != t9;
    let y21 = t10 != t41;
    let t42 = x28 != t40;
    let y13 = t41 != t42;
    let y29 = t39 != t42;
    let t43 = x15 != t12;
    let y7 = t14 != t43;
    let t44 = x14 != t37;
    let y31 = t43 != t44;
    let t45 = x31 != t13;
    let y15 = t44 != t45;
    let y23 = t15 != t45;
    let t46 = t12 != t36;
    let y14 = y6 != t46;
    let t47 = t31 != t33;
    let y17 = t19 != t47;
    let t48 = t6 != y3;
    let y11 = t26 != t48;
    let t49 = t2 != t38;
    let y25 = y24 != t49;
    let t50 = t7 != y19;
    let y27 = t26 != t50;
    let t51 = x22 != t46;
    let y30 = t11 != t51;
    let t52 = x19 != t28;
    let y20 = x28 != t52;
    let t53 = x3 != t27;
    let y4 = x12 != t53;
    let t54 = t3 != t33;
    let y9 = y8 != t54;
    let t55 = t21 != t31;
    let y1 = t38 != t55;
    let t56 = x4 != t17;
    let t57 = x19 != t56;
    let y12 = t27 != t57;
    let t58 = x3 != t28;
    let t59 = t17 != t58;
    let y28 = x20 != t59;
    pack8(y0, y1, y2, y3, y4, y5, y6, y7)
}

/// Byte 1 of the column that the MixColumns circuit computes from `a, b, c, d`.
pub open spec fn mix_columns_circuit_1(a: u8, b: u8, c: u8, d: u8) -> u8 {
    let x0 = bit(a, 0);
    let x1 = bit(a, 1);
    let x2 = bit(a, 2);
    let x3 = bit(a, 3);
    let x4 = bit(a, 4);
    let x5 = bit(a, 5);
    let x6 = bit(a, 6);
    let x7 = bit(a, 7);
    let x8 = bit(b, 0);
    let x9 = bit(b, 1);
    let x10 = bit(b, 2);
    let x11 = bit(b, 3);
    let x12 = bit(b, 4);
    let x13 = bit(b, 5);
    let x14 = bit(b, 6);
    let x15 = bit(b, 7);
    let x16 = bit(c, 0);
    let x17 = bit(c, 1);
    let x18 = bit(c, 2);
    let x19 = bit(c, 3);
    let x20 = bit(c, 4);
    let x21 = bit(c, 5);
    let x22 = bit(c, 6);
    let x23 = bit(c, 7);
    let x24 = bit(d, 0);
    let x25 = bit(d, 1);
    let x26 = bit(d, 2);
    let x27 = bit(d, 3);
    let x28 = bit(d, 4);
    let x29 = bit(d, 5);
    let x30 = bit(d, 6);
    let x31 = bit(d, 7);
    let t0 = x0 != x8;
    let t1 = x16 != x24;
    let t2 = x1 != x9;
    let t3 = x17 != x25;
    let t4 = x2 != x10;
    let t5 = x18 != x26;
    let t6 = x3 != x11;
    let t7 = x19 != x27;
    let t8 = x4 != x12;
    let t9 = x20 != x28;
    let t10 = x5 != x13;
    let t11 = x21 != x29;
    let t12 = x6 != x14;
    let t13 = x22 != x30;
    let t14 = x23 != x31;
    let t15 = x7 != x15;
    let t16 = x8 != t1;
    let y0 = t15 != t16;
    let t17 = x7 != x23;
    let t18 = x24 != t0;
    let y16 = t14 != t18;
    let t19 = t1 != y16;
    let y24 = t17 != t19;
    let t20 = x27 != t14;
    let t21 = t0 != y0;
    let y8 = t17 != t21;
    let t22 = t5 != t20;
    let y19 = t6 != t22;
    let t23 = x11 != t15;
    let t24 = t7 != t23;
    let y3 = t4 != t24;
    let t25 = x2 != x18;
    let t26 = t17 != t25;
    let t27 = t9 != t23;
    let t28 = t8 != t20;
    let t29 = x10 != t2;
    let y2 = t5 != t29;
    let t30 = x26 != t3;
    let y18 = t4 != t30;
    let t31 = x9 != x25;
    let t32 = t25 != t31;
    let y10 = t30 != t32;
    let y26 = t29 != t32;
    let t33 = x1 != t18;
    let t34 = x30 != t11;
    let y22 = t12 != t34;
    let t35 = x14 != t13;
    let y6 = t10 != t35;
    let t36 = x5 != x21;
    let t37 = x30 != t17;
    let t38 = x17 != t16;
    let t39 = x13 != t8;
    let y5 = t11 != t39;
    let t40 = x12 != t36;
    let t41 = x29 != t9;
    let y21 = t10 != t41;
    let t42 = x28 != t40;
    let y13 = t41 != t42;
    let y29 = t39 != t42;
    let t43 = x15 != t12;
    let y7 = t14 != t43;
    let t44 = x14 != t37;
    let y31 = t43 != t44;
    let t45 = x31 != t13;
    let y15 = t44 != t45;
    let y23 = t15 != t45;
    let t46 = t12 != t36;
    let y14 = y6 != t46;
    let t47 = t31 != t33;
    let y17 = t19 != t47;
    let t48 = t6 != y3;
    let y11 = t26 != t48;
    let t49 = t2 != t38;
    let y25 = y24 != t49;
    let t50 = t7 != y19;
    let y27 = t26 != t50;
    let t51 = x22 != t46;
    let y30 = t11 != t51;
    let t52 = x19 != t28;
    let y20 = x28 != t52;
    let t53 = x3 != t27;
    let y4 = x12 != t53;
    let t54 = t3 != t33;
    let y9 = y8 != t54;
    let t55 = t21 != t31;
    let y1 = t38 != t55;
    let t56 = x4 != t17;
    let t57 = x19 != t56;
    let y12 = t27 != t57;
    let t58 = x3 != t28;
    let t59 = t17 != t58;
    let y28 = x20 != t59;
    pack8(y8, y9, y10, y11, y12, y13, y14, y15)
}

/// Byte 2 of the column that the MixColumns circuit computes from `a, b, c, d`.
pub open spec fn mix_columns_circuit_2(a: u8, b: u8, c: u8, d: u8) -> u8 {
    let x0 = bit(a, 0);
    let x1 = bit(a, 1);
    let x2 = bit(a, 2);
    let x3 = bit(a, 3);
    let x4 = bit(a, 4);
    let x5 = bit(a, 5);
    let x6 = bit(a, 6);
    let x7 = bit(a, 7);
    let x8 = bit(b, 0);
    let x9 = bit(b, 1);
    let x10 = bit(b, 2);
    let x11 = bit(b, 3);
    let x12 = bit(b, 4);
    let x13 = bit(b, 5);
    let x14 = bit(b, 6);
    let x15 = bit(b, 7);
    let x16 = bit(c, 0);
    let x17 = bit(c, 1);
    let x18 = bit(c, 2);
    let x19 = bit(c, 3);
    let x20 = bit(c, 4);
    let x21 = bit(c, 5);
    let x22 = bit(c, 6);
    let x23 = bit(c, 7);
    let x24 = bit(d, 0);
    let x25 = bit(d, 1);
    let x26 = bit(d, 2);
    let x27 = bit(d, 3);
    let x28 = bit(d, 4);
    let x29 = bit(d, 5);
    let x30 = bit(d, 6);
    let x31 = bit(d, 7);
    let t0 = x0 != x8;
    let t1 = x16 != x24;
    let t2 = x1 != x9;
    let t3 = x17 != x25;
    let t4 = x2 != x10;
    let t5 = x18 != x26;
    let t6 = x3 != x11;
    let t7 = x19 != x27;
    let t8 = x4 != x12;
    let t9 = x20 != x28;
    let t10 = x5 != x13;
    let t11 = x21 != x29;
    let t12 = x6 != x14;
    let t13 = x22 != x30;
    let t14 = x23 != x31;
    let t15 = x7 != x15;
    let t16 = x8 != t1;
    let y0 = t15 != t16;
    let t17 = x7 != x23;
    let t18 = x24 != t0;
    let y16 = t14 != t18;
    let t19 = t1 != y16;
    let y24 = t17 != t19;
    let t20 = x27 != t14;
    let t21 = t0 != y0;
    let y8 = t17 != t21;
    let t22 = t5 != t20;
    let y19 = t6 != t22;
    let t23 = x11 != t15;
    let t24 = t7 != t23;
    let y3 = t4 != t24;
    let t25 = x2 != x18;
    let t26 = t17 != t25;
    let t27 = t9 != t23;
    let t28 = t8 != t20;
    let t29 = x10 != t2;
    let y2 = t5 != t29;
    let t30 = x26 != t3;
    let y18 = t4 != t30;
    let t31 = x9 != x25;
    let t32 = t25 != t31;
    let y10 = t30 != t32;
    let y26 = t29 != t32;
    let t33 = x1 != t18;
    let t34 = x30 != t11;
    let y22 = t12 != t34;
    let t35 = x14 != t13;
    let y6 = t10 != t35;
    let t36 = x5 != x21;
    let t37 = x30 != t17;
    let t38 = x17 != t16;
    let t39 = x13 != t8;
    let y5 = t11 != t39;
    let t40 = x12 != t36;
    let t41 = x29 != t9;
    let y21 = t10 != t41;
    let t42 = x28 != t40;
    let y13 = t41 != t42;
    let y29 = t39 != t42;
    let t43 = x15 != t12;
    let y7 = t14 != t43;
    let t44 = x14 != t37;
    let y31 = t43 != t44;
    let t45 = x31 != t13;
    let y15 = t44 != t45;
    let y23 = t15 != t45;
    let t46 = t12 != t36;
    let y14 = y6 != t46;
    let t47 = t31 != t33;
    let y17 = t19 != t47;
    let t48 = t6 != y3;
    let y11 = t26 != t48;
    let t49 = t2 != t38;
    let y25 = y24 != t49;
    let t50 = t7 != y19;
    let y27 = t26 != t50;
    let t51 = x22 != t46;
    let y30 = t11 != t51;
    let t52 = x19 != t28;
    let y20 = x28 != t52;
    let t53 = x3 != t27;
    let y4 = x12 != t53;
    let t54 = t3 != t33;
    let y9 = y8 != t54;
    let t55 = t21 != t31;
    let y1 = t38 != t55;
    let t56 = x4 != t17;
    let t57 = x19 != t56;
    let y12 = t27 != t57;
    let t58 = x3 != t28;
    let t59 = t17 != t58;
    let y28 = x20 != t59;
    pack8(y16, y17, y18, y19, y20, y21, y22, y23)
}

/// Byte 3 of the column that the MixColumns circuit computes from `a, b, c, d`.
pub open spec fn mix_columns_circuit_3(a: u8, b: u8, c: u8, d: u8) -> u8 {
    let x0 = bit(a, 0);
    let x1 = bit(a, 1);
    let x2 = bit(a, 2);
    let x3 = bit(a, 3);
    let x4 = bit(a, 4);
    let x5 = bit(a, 5);
    let x6 = bit(a, 6);
    let x7 = bit(a, 7);
    let x8 = bit(b, 0);
    let x9 = bit(b, 1);
    let x10 = bit(b, 2);
    let x11 = bit(b, 3);
    let x12 = bit(b, 4);
    let x13 = bit(b, 5);
    let x14 = bit(b, 6);
    let x15 = bit(b, 7);
    let x16 = bit(c, 0);
    let x17 = bit(c, 1);
    let x18 = bit(c, 2);
    let x19 = bit(c, 3);
    let x20 = bit(c, 4);
    let x21 = bit(c, 5);
    let x22 = bit(c, 6);
    let x23 = bit(c, 7);
    let x24 = bit(d, 0);
    let x25 = bit(d, 1);
    let x26 = bit(d, 2);
    let x27 = bit(d, 3);
    let x28 = bit(d, 4);
    let x29 = bit(d, 5);
    let x30 = bit(d, 6);
    let x31 = bit(d, 7);
    let t0 = x0 != x8;
    let t1 = x16 != x24;
    let t2 = x1 != x9;
    let t3 = x17 != x25;
    let t4 = x2 != x10;
    let t5 = x18 != x26;
    let t6 = x3 != x11;
    let t7 = x19 != x27;
    let t8 = x4 != x12;
    let t9 = x20 != x28;
    let t10 = x5 != x13;
    let t11 = x21 != x29;
    let t12 = x6 != x14;
    let t13 = x22 != x30;
    let t14 = x23 != x31;
    let t15 = x7 != x15;
    let t16 = x8 != t1;
    let y0 = t15 != t16;
    let t17 = x7 != x23;
    let t18 = x24 != t0;
    let y16 = t14 != t18;
    let t19 = t1 != y16;
    let y24 = t17 != t19;
    let t20 = x27 != t14;
    let t21 = t0 != y0;
    let y8 = t17 != t21;
    let t22 = t5 != t20;
    let y19 = t6 != t22;
    let t23 = x11 != t15;
    let t24 = t7 != t23;
    let y3 = t4 != t24;
    let t25 = x2 != x18;
    let t26 = t17 != t25;
    let t27 = t9 != t23;
    let t28 = t8 != t20;
    let t29 = x10 != t2;
    let y2 = t5 != t29;
    let t30 = x26 != t3;
    let y18 = t4 != t30;
    let t31 = x9 != x25;
    let t32 = t25 != t31;
    let y10 = t30 != t32;
    let y26 = t29 != t32;
    let t33 = x1 != t18;
    let t34 = x30 != t11;
    let y22 = t12 != t34;
    let t35 = x14 != t13;
    let y6 = t10 != t35;
    let t36 = x5 != x21;
    let t37 = x30 != t17;
    let t38 = x17 != t16;
    let t39 = x13 != t8;
    let y5 = t11 != t39;
    let t40 = x12 != t36;
    let t41 = x29 != t9;
    let y21 = t10 != t41;
    let t42 = x28 != t40;
    let y13 = t41 != t42;
    let y29 = t39 != t42;
    let t43 = x15 != t12;
    let y7 = t14 != t43;
    let t44 = x14 != t37;
    let y31 = t43 != t44;
    let t45 = x31 != t13;
    let y15 = t44 != t45;
    let y23 = t15 != t45;
    let t46 = t12 != t36;
    let y14 = y6 != t46;
    let t47 = t31 != t33;
    let y17 = t19 != t47;
    let t48 = t6 != y3;
    let y11 = t26 != t48;
    let t49 = t2 != t38;
    let y25 = y24 != t49;
    let t50 = t7 != y19;
    let y27 = t26 != t50;
    let t51 = x22 != t46;
    let y30 = t11 != t51;
    let t52 = x19 != t28;
    let y20 = x28 != t52;
    let t53 = x3 != t27;
    let y4 = x12 != t53;
    let t54 = t3 != t33;
    let y9 = y8 != t54;
    let t55 = t21 != t31;
    let y1 = t38 != t55;
    let t56 = x4 != t17;
    let t57 = x19 != t56;
    let y12 = t27 != t57;
    let t58 = x3 != t28;
    let t59 = t17 != t58;
    let y28 = x20 != t59;
    pack8(y24, y25, y26, y27, y28, y29, y30, y31)
}

/// The 32 input bits of the MixColumns program: the bits of `a`, then of
/// `b`, `c` and `d`, each least significant first.
pub open spec fn column_bits(a: u8, b: u8, c: u8, d: u8) -> Seq<bool> {
    bits_of(a) + bits_of(b) + bits_of(c) + bits_of(d)
}

spec fn mix_columns_gates_hold_0(w: Seq<bool>) -> bool {
    &&& w[32] == (w[0] != w[8])
    &&& w[33] == (w[16] != w[24])
    &&& w[34] == (w[1] != w[9])
    &&& w[35] == (w[17] != w[25])
    &&& w[36] == (w[2] != w[10])
    &&& w[37] == (w[18] != w[26])
    &&& w[38] == (w[3] != w[11])
    &&& w[39] == (w[19] != w[27])
    &&& w[40] == (w[4] != w[12])
    &&& w[41] == (w[20] != w[28])
    &&& w[42] == (w[5] != w[13])
    &&& w[43] == (w[21] != w[29])
    &&& w[44] == (w[6] != w[14])
    &&& w[45] == (w[22] != w[30])
    &&& w[46] == (w[23] != w[31])
    &&& w[47] == (w[7] != w[15])
    &&& w[48] == (w[8] != w[33])
    &&& w[49] == (w[47] != w[48])
    &&& w[50] == (w[7] != w[23])
    &&& w[51] == (w[24] != w[32])
    &&& w[52] == (w[46] != w[51])
    &&& w[53] == (w[33] != w[52])
    &&& w[54] == (w[50] != w[53])
}

spec fn mix_columns_gates_hold_1(w: Seq<bool>) -> bool {
    &&& w[55] == (w[27] != w[46])
    &&& w[56] == (w[32] != w[49])
    &&& w[57] == (w[50] != w[56])
    &&& w[58] == (w[37] != w[55])
    &&& w[59] == (w[38] != w[58])
    &&& w[60] == (w[11] != w[47])
    &&& w[61] == (w[39] != w[60])
    &&& w[62] == (w[36] != w[61])
    &&& w[63] == (w[2] != w[18])
    &&& w[64] == (w[50] != w[63])
    &&& w[65] == (w[41] != w[60])
    &&& w[66] == (w[40] != w[55])
    &&& w[67] == (w[10] != w[34])
    &&& w[68] == (w[37] != w[67])
    &&& w[69] == (w[26] != w[35])
    &&& w[70] == (w[36] != w[69])
    &&& w[71] == (w[9] != w[25])
    &&& w[72] == (w[63] != w[71])
    &&& w[73] == (w[69] != w[72])
    &&& w[74] == (w[67] != w[72])
    &&& w[75] == (w[1] != w[51])
    &&& w[76] == (w[30] != w[43])
    &&& w[77] == (w[44] != w[76])
}

spec fn mix_columns_gates_hold_2(w: Seq<bool>) -> bool {
    &&& w[78] == (w[14] != w[45])
    &&& w[79] == (w[42] != w[78])
    &&& w[80] == (w[5] != w[21])
    &&& w[81] == (w[30] != w[50])
    &&& w[82] == (w[17] != w[48])
    &&& w[83] == (w[13] != w[40])
    &&& w[84] == (w[43] != w[83])
    &&& w[85] == (w[12] != w[80])
    &&& w[86] == (w[29] != w[41])
    &&& w[87] == (w[42] != w[86])
    &&& w[88] == (w[28] != w[85])
    &&& w[89] == (w[86] != w[88])
    &&& w[90] == (w[83] != w[88])
    &&& w[91] == (w[15] != w[44])
    &&& w[92] == (w[46] != w[91])
    &&& w[93] == (w[14] != w[81])
    &&& w[94] == (w[91] != w[93])
    &&& w[95] == (w[31] != w[45])
    &&& w[96] == (w[93] != w[95])
    &&& w[97] == (w[47] != w[95])
    &&& w[98] == (w[44] != w[80])
    &&& w[99] == (w[79] != w[98])
    &&& w[100] == (w[71] != w[75])
}

spec fn mix_columns_gates_hold_3(w: Seq<bool>) -> bool {
    &&& w[101] == (w[53] != w[100])
    &&& w[102] == (w[38] != w[62])
    &&& w[103] == (w[64] != w[102])
    &&& w[104] == (w[34] != w[82])
    &&& w[105] == (w[54] != w[104])
    &&& w[106] == (w[39] != w[59])
    &&& w[107] == (w[64] != w[106])
    &&& w[108] == (w[22] != w[98])
    &&& w[109] == (w[43] != w[108])
    &&& w[110] == (w[19] != w[66])
    &&& w[111] == (w[28] != w[110])
    &&& w[112] == (w[3] != w[65])
    &&& w[113] == (w[12] != w[112])
    &&& w[114] == (w[35] != w[75])
    &&& w[115] == (w[57] != w[114])
    &&& w[116] == (w[56] != w[71])
    &&& w[117] == (w[82] != w[116])
    &&& w[118] == (w[4] != w[50])
    &&& w[119] == (w[19] != w[118])
    &&& w[120] == (w[65] != w[119])
    &&& w[121] == (w[3] != w[66])
    &&& w[122] == (w[50] != w[121])
    &&& w[123] == (w[20] != w[122])
}

/// Each wire of `w` holds what the MixColumns program puts there.
spec fn mix_columns_wires_hold(w: Seq<bool>, a: u8, b: u8, c: u8, d: u8) -> bool {
    &&& w.len() == 124
    &&& w[0] == bit(a, 0)
    &&& w[1] == bit(a, 1)
    &&& w[2] == bit(a, 2)
    &&& w[3] == bit(a, 3)
    &&& w[4] == bit(a, 4)
    &&& w[5] == bit(a, 5)
    &&& w[6] == bit(a, 6)
    &&& w[7] == bit(a, 7)
    &&& w[8] == bit(b, 0)
    &&& w[9] == bit(b, 1)
    &&& w[10] == bit(b, 2)
    &&& w[11] == bit(b, 3)
    &&& w[12] == bit(b, 4)
    &&& w[13] == bit(b, 5)
    &&& w[14] == bit(b, 6)
    &&& w[15] == bit(b, 7)
    &&& w[16] == bit(c, 0)
    &&& w[17] == bit(c, 1)
    &&& w[18] == bit(c, 2)
    &&& w[19] == bit(c, 3)
    &&& w[20] == bit(c, 4)
    &&& w[21] == bit(c, 5)
    &&& w[22] == bit(c, 6)
    &&& w[23] == bit(c, 7)
    &&& w[24] == bit(d, 0)
    &&& w[25] == bit(d, 1)
    &&& w[26] == bit(d, 2)
    &&& w[27] == bit(d, 3)
    &&& w[28] == bit(d, 4)
    &&& w[29] == bit(d, 5)
    &&& w[30] == bit(d, 6)
    &&& w[31] == bit(d, 7)
    &&& mix_columns_gates_hold_0(w)
    &&& mix_columns_gates_hold_1(w)
    &&& mix_columns_gates_hold_2(w)
    &&& mix_columns_gates_hold_3(w)
}

#[verifier::spinoff_prover]
proof fn lemma_mix_columns_gates_0(p: &Program, ins: Seq<bool>, w: Seq<bool>)
    requires
        is_mix_columns_program(p),
        p.consistent(ins, w),
    ensures
        mix_columns_gates_hold_0(w),
{
    assert(p.gate_holds(w, 0));
    assert(p.gate_holds(w, 1));
    assert(p.gate_holds(w, 2));
    assert(p.gate_holds(w, 3));
    assert(p.gate_holds(w, 4));
    assert(p.gate_holds(w, 5));
    assert(p.gate_holds(w, 6));
    assert(p.gate_holds(w, 7));
    assert(p.gate_holds(w, 8));
    assert(p.gate_holds(w, 9));
    assert(p.gate_holds(w, 10));
    assert(p.gate_holds(w, 11));
    assert(p.gate_holds(w, 12));
    assert(p.gate_holds(w, 13));
    assert(p.gate_holds(w, 14));
    assert(p.gate_holds(w, 15));
    assert(p.gate_holds(w, 16));
    assert(p.gate_holds(w, 17));
    assert(p.gate_holds(w, 18));
    assert(p.gate_holds(w, 19));
    assert(p.gate_holds(w, 20));
    assert(p.gate_holds(w, 21));
    assert(p.gate_holds(w, 22));
}

#[verifier::spinoff_prover]
proof fn lemma_mix_columns_gates_1(p: &Program, ins: Seq<bool>, w: Seq<bool>)
    requires
        is_mix_columns_program(p),
        p.consistent(ins, w),
    ensures
        mix_columns_gates_hold_1(w),
{
    assert(p.gate_holds(w, 23));
    assert(p.gate_holds(w, 24));
    assert(p.gate_holds(w, 25));
    assert(p.gate_holds(w, 26));
    assert(p.gate_holds(w, 27));
    assert(p.gate_holds(w, 28));
    assert(p.gate_holds(w, 29));
    assert(p.gate_holds(w, 30));
    assert(p.gate_holds(w, 31));
    assert(p.gate_holds(w, 32));
    assert(p.gate_holds(w, 33));
    assert(p.gate_holds(w, 34));
    assert(p.gate_holds(w, 35));
    assert(p.gate_holds(w, 36));
    assert(p.gate_holds(w, 37));
    assert(p.gate_holds(w, 38));
    assert(p.gate_holds(w, 39));
    assert(p.gate_holds(w, 40));
    assert(p.gate_holds(w, 41));
    assert(p.gate_holds(w, 42));
    assert(p.gate_holds(w, 43));
    assert(p.gate_holds(w, 44));
    assert(p.gate_holds(w, 45));
}

#[verifier::spinoff_prover]
proof fn lemma_mix_columns_gates_2(p: &Program, ins: Seq<bool>, w: Seq<bool>)
    requires
        is_mix_columns_program(p),
        p.consistent(ins, w),
    ensures
        mix_columns_gates_hold_2(w),
{
    assert(p.gate_holds(w, 46));
    assert(p.gate_holds(w, 47));
    assert(p.gate_holds(w, 48));
    assert(p.gate_holds(w, 49));
    assert(p.gate_holds(w, 50));
    assert(p.gate_holds(w, 51));
    assert(p.gate_holds(w, 52));
    assert(p.gate_holds(w, 53));
    assert(p.gate_holds(w, 54));
    assert(p.gate_holds(w, 55));
    assert(p.gate_holds(w, 56));
    assert(p.gate_holds(w, 57));
    assert(p.gate_holds(w, 58));
    assert(p.gate_holds(w, 59));
    assert(p.gate_holds(w, 60));
    assert(p.gate_holds(w, 61));
    assert(p.gate_holds(w, 62));
    assert(p.gate_holds(w, 63));
    assert(p.gate_holds(w, 64));
    assert(p.gate_holds(w, 65));
    assert(p.gate_holds(w, 66));
    assert(p.gate_holds(w, 67));
    assert(p.gate_holds(w, 68));
}

#[verifier::spinoff_prover]
proof fn lemma_mix_columns_gates_3(p: &Program, ins: Seq<bool>, w: Seq<bool>)
    requires
        is_mix_columns_program(p),
        p.consistent(ins, w),
    ensures
        mix_columns_gates_hold_3(w),
{
    assert(p.gate_holds(w, 69));
    assert(p.gate_holds(w, 70));
    assert(p.gate_holds(w, 71));
    assert(p.gate_holds(w, 72));
    assert(p.gate_holds(w, 73));
    assert(p.gate_holds(w, 74));
    assert(p.gate_holds(w, 75));
    assert(p.gate_holds(w, 76));
    assert(p.gate_holds(w, 77));
    assert(p.gate_holds(w, 78));
    assert(p.gate_holds(w, 79));
    assert(p.gate_holds(w, 80));
    assert(p.gate_holds(w, 81));
    assert(p.gate_holds(w, 82));
    assert(p.gate_holds(w, 83));
    assert(p.gate_holds(w, 84));
    assert(p.gate_holds(w, 85));
    assert(p.gate_holds(w, 86));
    assert(p.gate_holds(w, 87));
    assert(p.gate_holds(w, 88));
    assert(p.gate_holds(w, 89));
    assert(p.gate_holds(w, 90));
    assert(p.gate_holds(w, 91));
}

proof fn lemma_column_bits_at(a: u8, b: u8, c: u8, d: u8)
    ensures
        column_bits(a, b, c, d)[0] == bit(a, 0),
        column_bits(a, b, c, d)[1] == bit(a, 1),
        column_bits(a, b, c, d)[2] == bit(a, 2),
        column_bits(a, b, c, d)[3] == bit(a, 3),
        column_bits(a, b, c, d)[4] == bit(a, 4),
        column_bits(a, b, c, d)[5] == bit(a, 5),
        column_bits(a, b, c, d)[6] == bit(a, 6),
        column_bits(a, b, c, d)[7] == bit(a, 7),
        column_bits(a, b, c, d)[8] == bit(b, 0),
        column_bits(a, b, c, d)[9] == bit(b, 1),
        column_bits(a, b, c, d)[10] == bit(b, 2),
        column_bits(a, b, c, d)[11] == bit(b, 3),
        column_bits(a, b, c, d)[12] == bit(b, 4),
        column_bits(a, b, c, d)[13] == bit(b, 5),
        column_bits(a, b, c, d)[14] == bit(b, 6),
        column_bits(a, b, c, d)[15] == bit(b, 7),
        column_bits(a, b, c, d)[16] == bit(c, 0),
        column_bits(a, b, c, d)[17] == bit(c, 1),
        column_bits(a, b, c, d)[18] == bit(c, 2),
        column_bits(a, b, c, d)[19] == bit(c, 3),
        column_bits(a, b, c, d)[20] == bit(c, 4),
        column_bits(a, b, c, d)[21] == bit(c, 5),
        column_bits(a, b, c, d)[22] == bit(c, 6),
        column_bits(a, b, c, d)[23] == bit(c, 7),
        column_bits(a, b, c, d)[24] == bit(d, 0),
        column_bits(a, b, c, d)[25] == bit(d, 1),
        column_bits(a, b, c, d)[26] == bit(d, 2),
        column_bits(a, b, c, d)[27] == bit(d, 3),
        column_bits(a, b, c, d)[28] == bit(d, 4),
        column_bits(a, b, c, d)[29] == bit(d, 5),
        column_bits(a, b, c, d)[30] == bit(d, 6),
        column_bits(a, b, c, d)[31] == bit(d, 7),
{
    let (ba, bb, bc, bd) = (bits_of(a), bits_of(b), bits_of(c), bits_of(d));
    let ab = ba + bb;
    let abc = ab + bc;
    let abcd = abc + bd;
    assert(abcd[0] == abc[0] && abc[0] == ab[0] && ab[0] == ba[0]);
    assert(abcd[1] == abc[1] && abc[1] == ab[1] && ab[1] == ba[1]);
    assert(abcd[2] == abc[2] && abc[2] == ab[2] && ab[2] == ba[2]);
    assert(abcd[3] == abc[3] && abc[3] == ab[3] && ab[3] == ba[3]);
    assert(abcd[4] == abc[4] && abc[4] == ab[4] && ab[4] == ba[4]);
    assert(abcd[5] == abc[5] && abc[5] == ab[5] && ab[5] == ba[5]);
    assert(abcd[6] == abc[6] && abc[6] == ab[6] && ab[6] == ba[6]);
    assert(abcd[7] == abc[7] && abc[7] == ab[7] && ab[7] == ba[7]);
    assert(abcd[8] == abc[8] && abc[8] == ab[8] && ab[8] == bb[0]);
    assert(abcd[9] == abc[9] && abc[9] == ab[9] && ab[9] == bb[1]);
    assert(abcd[10] == abc[10] && abc[10] == ab[10] && ab[10] == bb[2]);
    assert(abcd[11] == abc[11] && abc[11] == ab[11] && ab[11] == bb[3]);
    assert(abcd[12] == abc[12] && abc[12] == ab[12] && ab[12] == bb[4]);
    assert(abcd[13] == abc[13] && abc[13] == ab[13] && ab[13] == bb[5]);
    assert(abcd[14] == abc[14] && abc[14] == ab[14] && ab[14] == bb[6]);
    assert(abcd[15] == abc[15] && abc[15] == ab[15] && ab[15] == bb[7]);
    assert(abcd[16] == abc[16] && abc[16] == bc[0]);
    assert(abcd[17] == abc[17] && abc[17] == bc[1]);
    assert(abcd[18] == abc[18] && abc[18] == bc[2]);
    assert(abcd[19] == abc[19] && abc[19] == bc[3]);
    assert(abcd[20] == abc[20] && abc[20] == bc[4]);
    assert(abcd[21] == abc[21] && abc[21] == bc[5]);
    assert(abcd[22] == abc[22] && abc[22] == bc[6]);
    assert(abcd[23] == abc[23] && abc[23] == bc[7]);
    assert(abcd[24] == bd[0]);
    assert(abcd[25] == bd[1]);
    assert(abcd[26] == bd[2]);
    assert(abcd[27] == bd[3]);
    assert(abcd[28] == bd[4]);
    assert(abcd[29] == bd[5]);
    assert(abcd[30] == bd[6]);
    assert(abcd[31] == bd[7]);
}

#[verifier::spinoff_prover]
proof fn lemma_mix_columns_wires(p: &Program, a: u8, b: u8, c: u8, d: u8, w: Seq<bool>)
    requires
        is_mix_columns_program(p),
        p.consistent(column_bits(a, b, c, d), w),
    ensures
        mix_columns_wires_hold(w, a, b, c, d),
{
    lemma_column_bits_at(a, b, c, d);
    let ins = column_bits(a, b, c, d);
    assert(w[0] == w.subrange(0, 32)[0]);
    assert(w[1] == w.subrange(0, 32)[1]);
    assert(w[2] == w.subrange(0, 32)[2]);
    assert(w[3] == w.subrange(0, 32)[3]);
    assert(w[4] == w.subrange(0, 32)[4]);
    assert(w[5] == w.subrange(0, 32)[5]);
    assert(w[6] == w.subrange(0, 32)[6]);
    assert(w[7] == w.subrange(0, 32)[7]);
    assert(w[8] == w.subrange(0, 32)[8]);
    assert(w[9] == w.subrange(0, 32)[9]);
    assert(w[10] == w.subrange(0, 32)[10]);
    assert(w[11] == w.subrange(0, 32)[11]);
    assert(w[12] == w.subrange(0, 32)[12]);
    assert(w[13] == w.subrange(0, 32)[13]);
    assert(w[14] == w.subrange(0, 32)[14]);
    assert(w[15] == w.subrange(0, 32)[15]);
    assert(w[16] == w.subrange(0, 32)[16]);
    assert(w[17] == w.subrange(0, 32)[17]);
    assert(w[18] == w.subrange(0, 32)[18]);
    assert(w[19] == w.subrange(0, 32)[19]);
    assert(w[20] == w.subrange(0, 32)[20]);
    assert(w[21] == w.subrange(0, 32)[21]);
    assert(w[22] == w.subrange(0, 32)[22]);
    assert(w[23] == w.subrange(0, 32)[23]);
    assert(w[24] == w.subrange(0, 32)[24]);
    assert(w[25] == w.subrange(0, 32)[25]);
    assert(w[26] == w.subrange(0, 32)[26]);
    assert(w[27] == w.subrange(0, 32)[27]);
    assert(w[28] == w.subrange(0, 32)[28]);
    assert(w[29] == w.subrange(0, 32)[29]);
    assert(w[30] == w.subrange(0, 32)[30]);
    assert(w[31] == w.subrange(0, 32)[31]);
    lemma_mix_columns_gates_0(p, ins, w);
    lemma_mix_columns_gates_1(p, ins, w);
    lemma_mix_columns_gates_2(p, ins, w);
    lemma_mix_columns_gates_3(p, ins, w);
}

#[verifier::spinoff_prover]
proof fn lemma_mix_columns_byte_0(w: Seq<bool>, a: u8, b: u8, c: u8, d: u8)
    requires
        mix_columns_wires_hold(w, a, b, c, d),
    ensures
        pack8(w[49], w[117], w[68], w[62], w[113], w[84], w[79], w[92]) == mix_columns_circuit_0(a, b, c, d),
{
}

#[verifier::spinoff_prover]
proof fn lemma_mix_columns_byte_1(w: Seq<bool>, a: u8, b: u8, c: u8, d: u8)
    requires
        mix_columns_wires_hold(w, a, b, c, d),
    ensures
        pack8(w[57], w[115], w[73], w[103], w[120], w[89], w[99], w[96]) == mix_columns_circuit_1(a, b, c, d),
{
}

#[verifier::spinoff_prover]
proof fn lemma_mix_columns_byte_2(w: Seq<bool>, a: u8, b: u8, c: u8, d: u8)
    requires
        mix_columns_wires_hold(w, a, b, c, d),
    ensures
        pack8(w[52], w[101], w[70], w[59], w[111], w[87], w[77], w[97]) == mix_columns_circuit_2(a, b, c, d),
{
}

#[verifier::spinoff_prover]
proof fn lemma_mix_columns_byte_3(w: Seq<bool>, a: u8, b: u8, c: u8, d: u8)
    requires
        mix_columns_wires_hold(w, a, b, c, d),
    ensures
        pack8(w[54], w[105], w[74], w[107], w[123], w[90], w[109], w[94]) == mix_columns_circuit_3(a, b, c, d),
{
}

/// The outputs of the MixColumns program, read as four bytes, are the circuit's bytes.
pub proof fn lemma_mix_columns_program_meaning(p: &Program, a: u8, b: u8, c: u8, d: u8, w: Seq<bool>)
    requires
        is_mix_columns_program(p),
        p.consistent(column_bits(a, b, c, d), w),
    ensures
        byte_of(p.read_outputs(w).subrange(0, 8)) == mix_columns_circuit_0(a, b, c, d),
        byte_of(p.read_outputs(w).subrange(8, 16)) == mix_columns_circuit_1(a, b, c, d),
        byte_of(p.read_outputs(w).subrange(16, 24)) == mix_columns_circuit_2(a, b, c, d),
        byte_of(p.read_outputs(w).subrange(24, 32)) == mix_columns_circuit_3(a, b, c, d),
{
    let o = p.read_outputs(w);
    lemma_mix_columns_wires(p, a, b, c, d, w);
    lemma_mix_columns_byte_0(w, a, b, c, d);
    lemma_mix_columns_byte_1(w, a, b, c, d);
    lemma_mix_columns_byte_2(w, a, b, c, d);
    lemma_mix_columns_byte_3(w, a, b, c, d);
    assert(o[0] == w[49]);
    assert(o[1] == w[117]);
    assert(o[2] == w[68]);
    assert(o[3] == w[62]);
    assert(o[4] == w[113]);
    assert(o[5] == w[84]);
    assert(o[6] == w[79]);
    assert(o[7] == w[92]);
    assert(o[8] == w[57]);
    assert(o[9] == w[115]);
    assert(o[10] == w[73]);
    assert(o[11] == w[103]);
    assert(o[12] == w[120]);
    assert(o[13] == w[89]);
    assert(o[14] == w[99]);
    assert(o[15] == w[96]);
    assert(o[16] == w[52]);
    assert(o[17] == w[101]);
    assert(o[18] == w[70]);
    assert(o[19] == w[59]);
    assert(o[20] == w[111]);
    assert(o[21] == w[87]);
    assert(o[22] == w[77]);
    assert(o[23] == w[97]);
    assert(o[24] == w[54]);
    assert(o[25] == w[105]);
    assert(o[26] == w[74]);
    assert(o[27] == w[107]);
    assert(o[28] == w[123]);
    assert(o[29] == w[90]);
    assert(o[30] == w[109]);
    assert(o[31] == w[94]);
    let o0 = o.subrange(0, 8);
    assert(o0[0] == o[0]);
    assert(o0[1] == o[1]);
    assert(o0[2] == o[2]);
    assert(o0[3] == o[3]);
    assert(o0[4] == o[4]);
    assert(o0[5] == o[5]);
    assert(o0[6] == o[6]);
    assert(o0[7] == o[7]);
    let o1 = o.subrange(8, 16);
    assert(o1[0] == o[8]);
    assert(o1[1] == o[9]);
    assert(o1[2] == o[10]);
    assert(o1[3] == o[11]);
    assert(o1[4] == o[12]);
    assert(o1[5] == o[13]);
    assert(o1[6] == o[14]);
    assert(o1[7] == o[15]);
    let o2 = o.subrange(16, 24);
    assert(o2[0] == o[16]);
    assert(o2[1] == o[17]);
    assert(o2[2] == o[18]);
    assert(o2[3] == o[19]);
    assert(o2[4] == o[20]);
    assert(o2[5] == o[21]);
    assert(o2[6] == o[22]);
    assert(o2[7] == o[23]);
    let o3 = o.subrange(24, 32);
    assert(o3[0] == o[24]);
    assert(o3[1] == o[25]);
    assert(o3[2] == o[26]);
    assert(o3[3] == o[27]);
    assert(o3[4] == o[28]);
    assert(o3[5] == o[29]);
    assert(o3[6] == o[30]);
    assert(o3[7] == o[31]);
}

} // verus!
