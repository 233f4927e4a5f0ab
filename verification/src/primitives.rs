//! The value types exchanged across the provider contracts.
//!
//! The contracts treat these as semantic identifiers and records: fixed
//! width words compared for equality, an account snapshot, and a bytecode
//! wrapper.  No arithmetic on them is part of the contracts, so each word
//! is kept as plain unsigned limbs covering its full width.

use vstd::prelude::*;

verus! {

/// A 160-bit account address: 32 high bits and 128 low bits.
#[derive(Clone, Copy, PartialEq, Eq, Hash, Debug, Structural)]
pub struct Address {
    pub hi: u32,
    pub lo: u128,
}

/// A 256-bit hash, identifying a block or a blob of bytecode.
#[derive(Clone, Copy, PartialEq, Eq, Hash, Debug, Structural)]
pub struct Hash256 {
    pub hi: u128,
    pub lo: u128,
}

/// A 256-bit unsigned word: a block number, a storage index, or a
/// storage value.
#[derive(Clone, Copy, PartialEq, Eq, Hash, Debug, Structural)]
pub struct Word256 {
    pub hi: u128,
    pub lo: u128,
}

impl Word256 {
    /// The all-zero word, the value of every storage slot that was never
    /// written.
    pub open spec fn spec_zero() -> Word256 {
        Word256 { hi: 0, lo: 0 }
    }

    /// Builds the all-zero word.
    pub fn zero() -> (w: Word256)
        ensures
            w == Word256::spec_zero(),
    {
        Word256 { hi: 0, lo: 0 }
    }
}

/// The snapshot of an account: balance, nonce and the hash of its code.
#[derive(Clone, Copy, PartialEq, Eq, Hash, Debug, Structural)]
pub struct AccountInfo {
    pub balance: Word256,
    pub nonce: u64,
    pub code_hash: Hash256,
}

/// A blob of contract bytecode, viewed as the sequence of its bytes.
#[derive(Clone, Debug)]
pub struct Bytecode {
    pub bytes: Vec<u8>,
}

impl View for Bytecode {
    type V = Seq<u8>;

    open spec fn view(&self) -> Seq<u8> {
        self.bytes@
    }
}

impl Bytecode {
    /// Wraps a byte vector.
    pub fn new(bytes: Vec<u8>) -> (c: Bytecode)
        ensures
            c@ == bytes@,
    {
        Bytecode { bytes }
    }
}

} // verus!
