use vstd::prelude::*;

verus! {

/// The primitives of an evaluation engine: gates on bits, and the byte
/// operations that the bit codec and the round engine need.
///
/// `is_clear()` says that the primitives agree with plain values: each bit
/// and byte stands for the plain value that `bit_value` / `byte_value` give
/// (for a homomorphic engine, its decryption under the client key that the
/// engine's server key belongs to), and every primitive computes on those
/// values what its contract says. An engine opts in by defining `is_clear()`
/// as true and proving the contracts; every result of this library about
/// values holds for any engine that does. The engine on plain values does.
pub trait Engine {
    type Bit;

    type Byte;

    spec fn is_clear(&self) -> bool;

    spec fn bit_value(&self, b: &Self::Bit) -> bool;

    spec fn byte_value(&self, b: &Self::Byte) -> u8;

    fn bit_xor(&self, a: &Self::Bit, b: &Self::Bit) -> (r: Self::Bit)
        ensures
            self.is_clear() ==> self.bit_value(&r) == (self.bit_value(a) != self.bit_value(b)),
    ;

    fn bit_and(&self, a: &Self::Bit, b: &Self::Bit) -> (r: Self::Bit)
        ensures
            self.is_clear() ==> self.bit_value(&r) == (self.bit_value(a) && self.bit_value(b)),
    ;

    fn bit_not(&self, a: &Self::Bit) -> (r: Self::Bit)
        ensures
            self.is_clear() ==> self.bit_value(&r) == !self.bit_value(a),
    ;

    fn bit_copy(&self, a: &Self::Bit) -> (r: Self::Bit)
        ensures
            self.is_clear() ==> self.bit_value(&r) == self.bit_value(a),
    ;

    /// A byte that holds the public constant `v`.
    fn byte_const(&self, v: u8) -> (r: Self::Byte)
        ensures
            self.is_clear() ==> self.byte_value(&r) == v,
    ;

    fn byte_copy(&self, a: &Self::Byte) -> (r: Self::Byte)
        ensures
            self.is_clear() ==> self.byte_value(&r) == self.byte_value(a),
    ;

    fn byte_and(&self, a: &Self::Byte, b: &Self::Byte) -> (r: Self::Byte)
        ensures
            self.is_clear() ==> self.byte_value(&r) == self.byte_value(a) & self.byte_value(b),
    ;

    fn byte_or(&self, a: &Self::Byte, b: &Self::Byte) -> (r: Self::Byte)
        ensures
            self.is_clear() ==> self.byte_value(&r) == self.byte_value(a) | self.byte_value(b),
    ;

    fn byte_xor(&self, a: &Self::Byte, b: &Self::Byte) -> (r: Self::Byte)
        ensures
            self.is_clear() ==> self.byte_value(&r) == self.byte_value(a) ^ self.byte_value(b),
    ;

    /// A bit that holds whether the two bytes are equal.
    fn byte_eq(&self, a: &Self::Byte, b: &Self::Byte) -> (r: Self::Bit)
        ensures
            self.is_clear() ==> self.bit_value(&r) == (self.byte_value(a) == self.byte_value(b)),
    ;

    /// `a` where `c` is set, else `b`.
    fn select(&self, c: &Self::Bit, a: &Self::Byte, b: &Self::Byte) -> (r: Self::Byte)
        ensures
            self.is_clear() ==> self.byte_value(&r) == if self.bit_value(c) {
                self.byte_value(a)
            } else {
                self.byte_value(b)
            },
    ;

    /// The entry of a public 256-entry table at the byte's value.
    fn lookup(&self, a: &Self::Byte, table: &Vec<u8>) -> (r: Self::Byte)
        requires
            table.len() == 256,
        ensures
            self.is_clear() ==> self.byte_value(&r) == table@[self.byte_value(a) as int],
    ;
}

/// The plain values of a sequence of bits.
pub open spec fn bit_values<E: Engine>(e: &E, s: Seq<E::Bit>) -> Seq<bool> {
    Seq::new(s.len(), |i: int| e.bit_value(&s[i]))
}

/// The plain values of a sequence of bytes.
pub open spec fn byte_values<E: Engine>(e: &E, s: Seq<E::Byte>) -> Seq<u8> {
    Seq::new(s.len(), |i: int| e.byte_value(&s[i]))
}

/// The engine on plain bits and bytes.
pub struct ClearEngine;

impl Engine for ClearEngine {
    type Bit = bool;

    type Byte = u8;

    open spec fn is_clear(&self) -> bool {
        true
    }

    open spec fn bit_value(&self, b: &bool) -> bool {
        *b
    }

    open spec fn byte_value(&self, b: &u8) -> u8 {
        *b
    }

    fn bit_xor(&self, a: &bool, b: &bool) -> (r: bool) {
        *a != *b
    }

    fn bit_and(&self, a: &bool, b: &bool) -> (r: bool) {
        *a && *b
    }

    fn bit_not(&self, a: &bool) -> (r: bool) {
        !*a
    }

    fn bit_copy(&self, a: &bool) -> (r: bool) {
        *a
    }

    fn byte_const(&self, v: u8) -> (r: u8) {
        v
    }

    fn byte_copy(&self, a: &u8) -> (r: u8) {
        *a
    }

    fn byte_and(&self, a: &u8, b: &u8) -> (r: u8) {
        *a & *b
    }

    fn byte_or(&self, a: &u8, b: &u8) -> (r: u8) {
        *a | *b
    }

    fn byte_xor(&self, a: &u8, b: &u8) -> (r: u8) {
        *a ^ *b
    }

    fn byte_eq(&self, a: &u8, b: &u8) -> (r: bool) {
        *a == *b
    }

    fn select(&self, c: &bool, a: &u8, b: &u8) -> (r: u8) {
        if *c {
            *a
        } else {
            *b
        }
    }

    fn lookup(&self, a: &u8, table: &Vec<u8>) -> (r: u8) {
        table[*a as usize]
    }
}

} // verus!
