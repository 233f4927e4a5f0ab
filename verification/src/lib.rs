//! Contracts between a deterministic execution engine and an arbitrary
//! backing store of chain state.
//!
//! Two capability families are defined, each with a mutable-access variant
//! (a single logical owner, free to update private bookkeeping on every
//! read) and a shared-access variant (read-only, usable through any number
//! of handles at once):
//!
//! * [`block_hash::BlockHash`] / [`block_hash::BlockHashRef`] resolve a
//!   block number to the hash of that block;
//! * [`state::State`] / [`state::StateRef`] resolve account records,
//!   bytecode by code hash, and storage-slot values.
//!
//! Adapter implementations make every shared-access provider usable where
//! the mutable-access contract is expected: a plain reference, a box, or a
//! reference-counted handle forwards each call to the wrapped provider and
//! reports exactly its results.  [`memory::MemoryBlockHash`] and
//! [`memory::MemoryState`] are in-memory providers that exercise the
//! contracts end to end.

pub mod block_hash;
pub mod memory;
pub mod primitives;
pub mod state;

