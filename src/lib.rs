//! AES-128 evaluated on values that an engine may hold encrypted.
//!
//! Bytes are split into bits by a position-value codec, the nonlinear steps
//! (the S-box, its inverse, MixColumns) run as fixed gate programs over those
//! bits, InvMixColumns runs by table lookups, and the round engine composes
//! the steps into ten rounds. Every step is generic over an `Engine`; on an
//! engine whose values can be read, each one is proved to compute the AES
//! function it stands for, and decryption is proved to undo encryption.

use vstd::prelude::*;

pub mod engine;
pub mod circuit;
pub mod codec;
pub mod aes;
pub mod programs;
pub mod circuit_laws;
pub mod bytewise;
pub mod cipher;

verus! {

} // verus!
